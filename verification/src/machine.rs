use vstd::prelude::*;

use crate::address::{ActorID, Address};
use crate::code::{ActorModule, ModuleModel};
use crate::econ::TokenAmount;
use crate::gas::PriceList;
use crate::state_tree::{ActorState, Cid, StateError, StateTree, TreeModel, init_model};
use vstd::string::StringExecFns;

verus! {

/// Numeric outcome classifier of an invocation. Failures partition into
/// syscall-level errors raised by the machine or call manager, and
/// application errors an actor chose to raise with its own code.
#[derive(Clone, Copy, PartialEq, Eq, Structural, Debug)]
pub enum ExitCode {
    /// The invocation succeeded.
    Success,
    /// The sender of an explicit message does not exist.
    SysSenderInvalid,
    /// The sender's sequence number or funds do not match the message.
    SysSenderStateInvalid,
    /// A value transfer exceeded the payer's balance.
    SysInsufficientFunds,
    /// The callee, or its code, could not be found.
    SysActorNotFound,
    /// The shared gas budget was exhausted; fatal to the whole message.
    SysOutOfGas,
    /// The call stack grew past the configured depth bound.
    SysLimitExceeded,
    /// A machine limit (such as the representable balance range) was hit.
    SysIllegalState,
    /// An actor aborted with its own application-defined code.
    ActorAbort(u64),
}

impl ExitCode {
    /// Whether this code reports success.
    pub open spec fn spec_is_success(&self) -> bool {
        self is Success
    }

    #[verifier::when_used_as_spec(spec_is_success)]
    pub fn is_success(&self) -> (r: bool)
        ensures
            r == self.spec_is_success(),
    {
        match self {
            ExitCode::Success => true,
            _ => false,
        }
    }
}

/// The canonical human-readable text recorded for a failure with this exit
/// code.
pub open spec fn spec_code_text(code: ExitCode) -> Seq<char> {
    match code {
        ExitCode::Success => "ok"@,
        ExitCode::SysSenderInvalid => "sender invalid"@,
        ExitCode::SysSenderStateInvalid => "sender state invalid"@,
        ExitCode::SysInsufficientFunds => "insufficient funds"@,
        ExitCode::SysActorNotFound => "actor or code not found"@,
        ExitCode::SysOutOfGas => "out of gas"@,
        ExitCode::SysLimitExceeded => "call depth limit exceeded"@,
        ExitCode::SysIllegalState => "illegal state"@,
        ExitCode::ActorAbort(_) => "actor aborted"@,
    }
}

/// Build the canonical text for an exit code.
pub fn code_text(code: &ExitCode) -> (r: String)
    ensures
        r@ == spec_code_text(*code),
{
    match code {
        ExitCode::Success => String::from_str("ok"),
        ExitCode::SysSenderInvalid => String::from_str("sender invalid"),
        ExitCode::SysSenderStateInvalid => String::from_str("sender state invalid"),
        ExitCode::SysInsufficientFunds => String::from_str("insufficient funds"),
        ExitCode::SysActorNotFound => String::from_str("actor or code not found"),
        ExitCode::SysOutOfGas => String::from_str("out of gas"),
        ExitCode::SysLimitExceeded => String::from_str("call depth limit exceeded"),
        ExitCode::SysIllegalState => String::from_str("illegal state"),
        ExitCode::ActorAbort(_) => String::from_str("actor aborted"),
    }
}

/// A syscall-level failure: its text and its exit code.
pub struct SyscallError(pub String, pub ExitCode);

/// Model of one backtrace entry.
pub ghost struct CallErrorModel {
    pub source: ActorID,
    pub code: ExitCode,
    pub message: Seq<char>,
}

/// An error included in a message's backtrace on failure. Entries are
/// ordered innermost first: the frame closest to the fault is recorded
/// first, and each ancestor that fails in turn appends its own entry.
#[derive(Clone, Debug)]
pub struct CallError {
    /// The actor that raised the error, or 0 for a syscall-level error.
    pub source: ActorID,
    /// The exit code.
    pub code: ExitCode,
    /// The error text.
    pub message: String,
}

impl View for CallError {
    type V = CallErrorModel;

    open spec fn view(&self) -> CallErrorModel {
        CallErrorModel { source: self.source, code: self.code, message: self.message@ }
    }
}

/// Model of a receipt.
pub ghost struct ReceiptModel {
    pub exit_code: ExitCode,
    pub return_data: Seq<u8>,
    pub gas_used: u64,
}

/// The on-chain result of one message: exit code, returned bytes and the
/// gas consumed.
#[derive(Clone, Debug)]
pub struct Receipt {
    pub exit_code: ExitCode,
    pub return_data: Vec<u8>,
    pub gas_used: u64,
}

impl View for Receipt {
    type V = ReceiptModel;

    open spec fn view(&self) -> ReceiptModel {
        ReceiptModel {
            exit_code: self.exit_code,
            return_data: self.return_data@,
            gas_used: self.gas_used,
        }
    }
}

/// Model of an apply result.
pub ghost struct ApplyRetModel {
    pub msg_receipt: ReceiptModel,
    pub backtrace: Seq<CallErrorModel>,
    pub penalty: TokenAmount,
    pub miner_tip: TokenAmount,
}

/// Apply message return data: the receipt stored on chain, the backtrace of
/// a failed message (empty on success), the penalty forfeited for
/// misbehavior, and the tip owed to the block producer.
#[derive(Clone, Debug)]
pub struct ApplyRet {
    pub msg_receipt: Receipt,
    pub backtrace: Vec<CallError>,
    pub penalty: TokenAmount,
    pub miner_tip: TokenAmount,
}

impl View for ApplyRet {
    type V = ApplyRetModel;

    open spec fn view(&self) -> ApplyRetModel {
        ApplyRetModel {
            msg_receipt: self.msg_receipt@,
            backtrace: self.backtrace@.map_values(|e: CallError| e@),
            penalty: self.penalty,
            miner_tip: self.miner_tip,
        }
    }
}

/// Model of the result of a prevalidation failure: zero gas, no return
/// bytes, a single syscall-sourced backtrace entry, no tip.
pub open spec fn spec_prevalidation_fail(
    message: Seq<char>,
    code: ExitCode,
    miner_penalty: TokenAmount,
) -> ApplyRetModel {
    ApplyRetModel {
        msg_receipt: ReceiptModel { exit_code: code, return_data: Seq::empty(), gas_used: 0 },
        backtrace: seq![CallErrorModel { source: 0, code, message }],
        penalty: miner_penalty,
        miner_tip: 0,
    }
}

impl ApplyRet {
    /// The result of a message rejected before any gas was spent: a receipt
    /// with zero gas used, a flat miner penalty, no state mutation, and one
    /// backtrace entry describing the rejection.
    pub fn prevalidation_fail(error: SyscallError, miner_penalty: TokenAmount) -> (r: ApplyRet)
        ensures
            r@ == spec_prevalidation_fail(error.0@, error.1, miner_penalty),
    {
        let SyscallError(message, code) = error;
        let r = ApplyRet {
            msg_receipt: Receipt { exit_code: code, return_data: Vec::new(), gas_used: 0 },
            backtrace: vec![CallError { source: 0, code, message }],
            penalty: miner_penalty,
            miner_tip: 0,
        };
        proof {
            assert(r@.backtrace =~= spec_prevalidation_fail(
                error.0@,
                error.1,
                miner_penalty,
            ).backtrace);
            assert(r@.msg_receipt.return_data =~= Seq::<u8>::empty());
        }
        r
    }
}

/// Whether a message was submitted by a user and chain-validated
/// (`Explicit`), or triggered by the protocol itself (`Implicit`), which
/// skips sender sequence and funds validation.
#[derive(Clone, Copy, PartialEq, Eq, Structural, Debug)]
pub enum ApplyKind {
    Explicit,
    Implicit,
}

/// Model of a message.
pub ghost struct MessageModel {
    pub from: Address,
    pub to: Address,
    pub sequence: u64,
    pub value: TokenAmount,
    pub method: u64,
    pub params: Seq<u8>,
    pub gas_limit: u64,
    pub gas_fee_cap: TokenAmount,
    pub gas_premium: TokenAmount,
}

/// A request to invoke a method on an actor, optionally carrying value.
#[derive(Clone, Debug)]
pub struct Message {
    pub from: Address,
    pub to: Address,
    pub sequence: u64,
    pub value: TokenAmount,
    pub method: u64,
    pub params: Vec<u8>,
    pub gas_limit: u64,
    pub gas_fee_cap: TokenAmount,
    pub gas_premium: TokenAmount,
}

impl View for Message {
    type V = MessageModel;

    open spec fn view(&self) -> MessageModel {
        MessageModel {
            from: self.from,
            to: self.to,
            sequence: self.sequence,
            value: self.value,
            method: self.method,
            params: self.params@,
            gas_limit: self.gas_limit,
            gas_fee_cap: self.gas_fee_cap,
            gas_premium: self.gas_premium,
        }
    }
}

/// Static configuration of a machine.
#[derive(Clone, Copy, PartialEq, Eq, Structural, Debug)]
pub struct Config {
    /// Largest allowed depth of the call stack.
    pub max_call_depth: u64,
}

/// Execution context supplied to the machine. All fields are private;
/// nothing here changes for the lifetime of one machine instance.
#[derive(Clone, Copy)]
pub struct MachineContext {
    /// The epoch at which the machine runs.
    epoch: i64,
    /// The base fee in effect while the machine runs.
    base_fee: TokenAmount,
    /// The initial state root.
    initial_state_root: Cid,
    /// The gas price list.
    price_list: PriceList,
    /// The network version at the epoch.
    network_version: u32,
}

impl MachineContext {
    pub fn new(
        epoch: i64,
        base_fee: TokenAmount,
        state_root: Cid,
        price_list: PriceList,
        network_version: u32,
    ) -> (c: MachineContext)
        ensures
            c.epoch() == epoch,
            c.base_fee() == base_fee,
            c.state_root() == state_root,
            c.price_list() == price_list,
            c.network_version() == network_version,
    {
        MachineContext { epoch, base_fee, price_list, network_version, initial_state_root: state_root }
    }

    pub closed spec fn spec_epoch(&self) -> i64 {
        self.epoch
    }

    #[verifier::when_used_as_spec(spec_epoch)]
    pub fn epoch(&self) -> (r: i64)
        ensures
            r == self.spec_epoch(),
    {
        self.epoch
    }

    pub closed spec fn spec_base_fee(&self) -> TokenAmount {
        self.base_fee
    }

    #[verifier::when_used_as_spec(spec_base_fee)]
    pub fn base_fee(&self) -> (r: TokenAmount)
        ensures
            r == self.spec_base_fee(),
    {
        self.base_fee
    }

    pub closed spec fn spec_state_root(&self) -> Cid {
        self.initial_state_root
    }

    #[verifier::when_used_as_spec(spec_state_root)]
    pub fn state_root(&self) -> (r: Cid)
        ensures
            r == self.spec_state_root(),
    {
        self.initial_state_root
    }

    pub closed spec fn spec_network_version(&self) -> u32 {
        self.network_version
    }

    #[verifier::when_used_as_spec(spec_network_version)]
    pub fn network_version(&self) -> (r: u32)
        ensures
            r == self.spec_network_version(),
    {
        self.network_version
    }

    pub closed spec fn spec_price_list(&self) -> PriceList {
        self.price_list
    }

    #[verifier::when_used_as_spec(spec_price_list)]
    pub fn price_list(&self) -> (r: PriceList)
        ensures
            r == self.spec_price_list(),
    {
        self.price_list
    }
}

/// First module whose content hash is `c`, scanning from index `i`.
pub open spec fn find_module(ms: Seq<(Cid, ModuleModel)>, c: Cid, i: int) -> Option<ModuleModel>
    decreases ms.len() - i,
{
    if i < 0 || i >= ms.len() {
        None
    } else if ms[i].0 == c {
        Some(ms[i].1)
    } else {
        find_module(ms, c, i + 1)
    }
}

/// The machine owns the state tree, the loadable code, and the immutable
/// execution context. It exposes actor creation, code loading and value
/// transfer as the only state-mutating primitives for the layers above; it
/// does no gas accounting of its own.
pub struct Machine {
    config: Config,
    context: MachineContext,
    state_tree: StateTree,
    code: Vec<(Cid, ActorModule)>,
}

impl Machine {
    /// Well-formedness of the machine: its state tree is well formed.
    pub open spec fn wf(self) -> bool {
        self.spec_state_tree().wf()
    }

    /// The registered modules, keyed by content hash.
    pub closed spec fn modules(self) -> Seq<(Cid, ModuleModel)> {
        self.code@.map_values(|p: (Cid, ActorModule)| (p.0, p.1@))
    }

    pub closed spec fn spec_config(self) -> Config {
        self.config
    }

    pub closed spec fn spec_state_tree(&self) -> StateTree {
        self.state_tree
    }

    /// Model of the current state tree.
    pub open spec fn tree(&self) -> TreeModel {
        self.spec_state_tree()@
    }

    /// Models of the outstanding state-tree snapshots, oldest first.
    pub open spec fn tree_saved(&self) -> Seq<TreeModel> {
        self.spec_state_tree().saved()
    }

    pub closed spec fn spec_context(self) -> MachineContext {
        self.context
    }

    /// A fresh machine over a freshly initialized state tree, with no
    /// modules registered.
    pub fn new(config: Config, context: MachineContext) -> (m: Machine)
        ensures
            m.wf(),
            m.tree() == init_model(),
            m.tree_saved() == Seq::<TreeModel>::empty(),
            m.modules() == Seq::<(Cid, ModuleModel)>::empty(),
            m.spec_config() == config,
            m.spec_context() == context,
    {
        let m = Machine { config, context, state_tree: StateTree::new(), code: Vec::new() };
        proof {
            assert(m.modules() =~= Seq::<(Cid, ModuleModel)>::empty());
        }
        m
    }

    pub fn config(&self) -> (c: Config)
        ensures
            c == self.spec_config(),
    {
        self.config
    }

    pub fn context(&self) -> (c: &MachineContext)
        ensures
            *c == self.spec_context(),
    {
        &self.context
    }

    pub fn state_tree(&self) -> (t: &StateTree)
        ensures
            *t == self.spec_state_tree(),
    {
        &self.state_tree
    }

    /// Read actor `id` from the state tree.
    pub fn get_actor(&self, id: ActorID) -> (r: Option<ActorState>)
        ensures
            r == self.tree().actor(id),
    {
        self.state_tree.get_actor(id)
    }

    /// Resolve an address against the state tree.
    pub fn resolve(&self, addr: Address) -> (r: Option<ActorID>)
        ensures
            r == self.tree().resolve(addr),
    {
        self.state_tree.resolve(addr)
    }

    /// Replace the state of an existing actor.
    pub fn set_actor(&mut self, id: ActorID, a: ActorState) -> (r: Result<(), StateError>)
        requires
            old(self).wf(),
        ensures
            final(self).wf(),
            final(self).modules() == old(self).modules(),
            final(self).spec_config() == old(self).spec_config(),
            final(self).spec_context() == old(self).spec_context(),
            final(self).tree_saved() == old(self).tree_saved(),
            match r {
                Ok(()) => old(self).tree().has_actor(id) && final(self).tree() == old(
                    self,
                ).tree().with_actor(id, a),
                Err(StateError::ActorNotFound) => !old(self).tree().has_actor(id)
                    && final(self).tree() == old(self).tree(),
                Err(StateError::BalanceOverflow) => old(self).tree().has_actor(id)
                    && final(self).tree() == old(self).tree() && crate::state_tree::sum_balances(
                    old(self).tree().actors,
                ) - crate::state_tree::slot_balance(old(self).tree().actor(id)) + a.balance as int
                    > u128::MAX,
                Err(_) => false,
            },
    {
        self.state_tree.set_actor(id, a)
    }

    /// Take a state-tree snapshot.
    pub fn snapshot(&mut self) -> (t: usize)
        requires
            old(self).wf(),
        ensures
            final(self).wf(),
            final(self).modules() == old(self).modules(),
            final(self).spec_config() == old(self).spec_config(),
            final(self).spec_context() == old(self).spec_context(),
            final(self).tree() == old(self).tree(),
            final(self).tree_saved() == old(self).tree_saved().push(
                old(self).tree(),
            ),
            t == old(self).tree_saved().len(),
    {
        self.state_tree.snapshot()
    }

    /// Discard the most recent snapshot, keeping all mutations.
    pub fn discard(&mut self, t: usize)
        requires
            old(self).wf(),
            old(self).tree_saved().len() == t + 1,
        ensures
            final(self).wf(),
            final(self).modules() == old(self).modules(),
            final(self).spec_config() == old(self).spec_config(),
            final(self).spec_context() == old(self).spec_context(),
            final(self).tree() == old(self).tree(),
            final(self).tree_saved() == old(self).tree_saved().take(t as int),
    {
        self.state_tree.discard(t)
    }

    /// Revert the state tree to snapshot `t`.
    pub fn revert(&mut self, t: usize)
        requires
            old(self).wf(),
            t <= old(self).tree_saved().len(),
        ensures
            final(self).wf(),
            final(self).modules() == old(self).modules(),
            final(self).spec_config() == old(self).spec_config(),
            final(self).spec_context() == old(self).spec_context(),
            (final(self).tree(), final(self).tree_saved()) == crate::state_tree::spec_revert(
                old(self).tree(),
                old(self).tree_saved(),
                t as int,
            ),
    {
        self.state_tree.revert(t)
    }

    /// Register loadable code under its content hash.
    pub fn install_module(&mut self, code: Cid, m: ActorModule)
        ensures
            final(self).modules() == old(self).modules().push((code, m@)),
            final(self).spec_state_tree() == old(self).spec_state_tree(),
            final(self).spec_config() == old(self).spec_config(),
            final(self).spec_context() == old(self).spec_context(),
    {
        self.code.push((code, m));
        proof {
            assert(self.modules() =~= old(self).modules().push((code, m@)));
        }
    }

    /// Resolve a code content hash to its validated, loadable module;
    /// `None` is the code-not-found failure.
    pub fn load_module(&self, code: &Cid) -> (r: Option<ActorModule>)
        ensures
            match r {
                Some(m) => find_module(self.modules(), *code, 0) == Some(m@),
                None => find_module(self.modules(), *code, 0) is None,
            },
    {
        let mut i: usize = 0;
        while i < self.code.len()
            invariant
                0 <= i <= self.code@.len(),
                find_module(self.modules(), *code, 0) == find_module(
                    self.modules(),
                    *code,
                    i as int,
                ),
            decreases self.code@.len() - i,
        {
            if self.code[i].0 == *code {
                let m = copy_module(&self.code[i].1);
                return Some(m);
            }
            i = i + 1;
        }
        None
    }

    /// Create an uninitialized actor at the next unused identifier.
    pub fn create_actor(&mut self, addr: Address, act: ActorState) -> (r: Result<
        ActorID,
        StateError,
    >)
        requires
            old(self).wf(),
        ensures
            final(self).wf(),
            final(self).modules() == old(self).modules(),
            final(self).spec_config() == old(self).spec_config(),
            final(self).spec_context() == old(self).spec_context(),
            final(self).tree_saved() == old(self).tree_saved(),
            match r {
                Ok(id) => {
                    &&& addr is Key
                    &&& old(self).tree().resolve(addr) is None
                    &&& id == old(self).tree().actors.len()
                    &&& final(self).tree() == old(self).tree().create_model(addr->Key_0, act)
                },
                Err(StateError::IllegalAddress) => addr is Id && final(self).tree() == old(
                    self,
                ).tree(),
                Err(StateError::ActorAlreadyExists) => addr is Key && old(self).tree().resolve(
                    addr,
                ) is Some && final(self).tree() == old(self).tree(),
                Err(StateError::BalanceOverflow) => final(self).tree() == old(self).tree() && (
                crate::state_tree::sum_balances(old(self).tree().actors) + act.balance as int
                    > u128::MAX || old(self).tree().actors.len() >= u64::MAX),
                Err(_) => false,
            },
    {
        self.state_tree.create_actor(addr, act)
    }

    /// Atomically debit `from` and credit `to`; the only value-movement
    /// primitive in the system.
    pub fn transfer(&mut self, from: ActorID, to: ActorID, value: TokenAmount) -> (r: Result<
        (),
        StateError,
    >)
        requires
            old(self).wf(),
        ensures
            final(self).wf(),
            final(self).modules() == old(self).modules(),
            final(self).spec_config() == old(self).spec_config(),
            final(self).spec_context() == old(self).spec_context(),
            final(self).tree_saved() == old(self).tree_saved(),
            match r {
                Ok(()) => {
                    &&& old(self).tree().has_actor(from)
                    &&& old(self).tree().has_actor(to)
                    &&& old(self).tree().actor(from)->Some_0.balance >= value
                    &&& final(self).tree() == old(self).tree().transfer_model(
                        from,
                        to,
                        value,
                    )
                },
                Err(StateError::ActorNotFound) => (!old(self).tree().has_actor(from) || !old(
                    self,
                ).tree().has_actor(to)) && final(self).tree() == old(
                    self,
                ).tree(),
                Err(StateError::InsufficientFunds) => old(self).tree().has_actor(from)
                    && old(self).tree().has_actor(to) && old(self).tree().actor(
                    from,
                )->Some_0.balance < value && final(self).tree() == old(self).tree(),
                Err(_) => false,
            },
    {
        self.state_tree.transfer(from, to, value)
    }
}

fn copy_ops(v: &Vec<crate::code::ActorOp>) -> (r: Vec<crate::code::ActorOp>)
    ensures
        r@ == v@,
{
    let mut r: Vec<crate::code::ActorOp> = Vec::new();
    let mut i: usize = 0;
    while i < v.len()
        invariant
            i <= v@.len(),
            r@ == v@.take(i as int),
        decreases v@.len() - i,
    {
        r.push(v[i]);
        proof {
            assert(r@ =~= v@.take(i + 1));
        }
        i = i + 1;
    }
    proof {
        assert(r@ =~= v@);
    }
    r
}

fn copy_bytes(v: &Vec<u8>) -> (r: Vec<u8>)
    ensures
        r@ == v@,
{
    let mut r: Vec<u8> = Vec::new();
    let mut i: usize = 0;
    while i < v.len()
        invariant
            i <= v@.len(),
            r@ == v@.take(i as int),
        decreases v@.len() - i,
    {
        r.push(v[i]);
        proof {
            assert(r@ =~= v@.take(i + 1));
        }
        i = i + 1;
    }
    proof {
        assert(r@ =~= v@);
    }
    r
}

fn copy_module(m: &ActorModule) -> (r: ActorModule)
    ensures
        r@ == m@,
{
    ActorModule { ops: copy_ops(&m.ops), ret: copy_bytes(&m.ret) }
}

} // verus!
