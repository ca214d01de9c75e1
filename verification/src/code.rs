use vstd::prelude::*;

use crate::address::Address;
use crate::econ::TokenAmount;

verus! {

/// One step of an actor invocation's observable behavior: either a metered
/// resource report or a syscall request back into the call manager. The
/// sandboxed execution engine is an external collaborator; the call manager
/// consumes a validated module as the deterministic script of steps its
/// execution performs, which is exactly what the engine reports back while
/// it runs. Compiling bytecode down to its script is the embedder's concern.
#[derive(Clone, Copy, PartialEq, Eq, Structural, Debug)]
pub enum ActorOp {
    /// Report `steps` of executed compute, to be charged.
    Compute { steps: u64 },
    /// Allocate `bytes` of sandbox memory.
    Memory { bytes: u64 },
    /// Read a block of `bytes` from storage.
    StorageGet { bytes: u64 },
    /// Write a block of `bytes` to storage.
    StoragePut { bytes: u64 },
    /// Perform `units` worth of a parameterized syscall.
    Syscall { units: u64 },
    /// Synchronously invoke method `method` of the actor at `to`, moving
    /// `value` along. When the nested call fails and `catch` is set, the
    /// failure is swallowed and execution continues; otherwise it is
    /// re-raised and this frame fails with the callee's exit code. An
    /// out-of-gas failure can never be caught.
    Send { to: Address, method: u64, value: TokenAmount, catch: bool },
    /// Fail this frame with the actor-chosen exit code `code`.
    Abort { code: u64 },
}

/// Mathematical model of a loadable module.
pub ghost struct ModuleModel {
    pub ops: Seq<ActorOp>,
    pub ret: Seq<u8>,
}

/// A validated, loadable module: what one actor's code does when invoked.
#[derive(Clone, Debug)]
pub struct ActorModule {
    /// The steps performed, in order, on every invocation.
    pub ops: Vec<ActorOp>,
    /// The bytes returned when every step succeeds.
    pub ret: Vec<u8>,
}

impl View for ActorModule {
    type V = ModuleModel;

    open spec fn view(&self) -> ModuleModel {
        ModuleModel { ops: self.ops@, ret: self.ret@ }
    }
}

} // verus!
