use vstd::prelude::*;

verus! {

/// Failures of a capability-runtime adapter, and of the sandbox context it
/// helps to assemble.
#[derive(Debug, Clone, Copy, PartialEq, Eq, Structural)]
pub enum RuntimeError {
    /// The adapter could not produce the compiled module bytes.
    CannotReadModule,
    /// The adapter's one-time preparation of on-disk resources failed.
    CannotPrepare,
    /// The sandbox context (for instance its machine-learning backends)
    /// could not be built.
    WasiContextError,
}

/// Every error a worker reports to its caller.
#[derive(Debug, Clone, Copy, PartialEq, Eq, Structural)]
pub enum WorkerError {
    /// The module bytes did not validate or compile.
    BadWasmModule,
    /// Any failure while wiring or running one invocation.
    ConfigureRuntimeError,
    /// A structural precondition of the worker does not hold (its own
    /// directory cannot be resolved).
    FailedToInitialize,
    /// A failure of the runtime adapter or of the sandbox context.
    RuntimeError(RuntimeError),
}

} // verus!
