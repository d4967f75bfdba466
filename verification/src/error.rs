use vstd::prelude::*;

verus! {

/// The one failure report of an extraction: every stage of the pipeline that
/// can fail maps to exactly one variant, and no failure is retried.
#[derive(Clone, Debug, PartialEq, Eq)]
pub enum ExtractError {
    /// The bytes do not parse as a WebAssembly module; `reason` carries the
    /// parser's own description of the rejection.
    MalformedModule { reason: String },
    /// A stand-in for the declared function import of this two-level name
    /// could not be registered.
    ImportUnsatisfiable { module_name: String, name: String },
    /// The virtual machine could not be set up, or instantiation failed
    /// after every function import had been satisfied (for example because
    /// the module requires a non-function import, which is never synthesized).
    InstantiationFailed,
    /// The instance has no memory export under the conventional name.
    MissingMemoryExport,
    /// The instance has no function export under the conventional name.
    MissingAccessorExport,
    /// The accessor export exists but its signature is not zero parameters
    /// with the one integer result matching the memory's addressing width.
    AccessorSignatureMismatch,
    /// Invoking the accessor trapped inside the instance.
    AccessorTrapped,
    /// The accessor's offset lies outside the memory, or no zero terminator
    /// follows it before the memory ends.
    OutOfBoundsScan { offset: u64, memory_len: u64 },
    /// The bytes before the terminator are not valid UTF-8.
    InvalidTextEncoding,
}

} // verus!
