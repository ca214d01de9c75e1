use vstd::prelude::*;

use crate::address::{ActorID, Address};
use crate::code::{ActorOp, ModuleModel};
use crate::econ::TokenAmount;
use crate::gas::{GasTracker, Operation, PriceList, spec_charge};
use crate::machine::{
    CallError, CallErrorModel, ExitCode, Machine, code_text, find_module, spec_code_text,
};
use crate::state_tree::{Cid, TreeModel};

verus! {

/// The immutable environment of one call-manager session: the registered
/// modules, the gas prices and the message's declared gas limit.
pub ghost struct Env {
    pub modules: Seq<(Cid, ModuleModel)>,
    pub prices: PriceList,
    pub gas_limit: u64,
}

/// The outcome of one (possibly nested) invocation: the resulting tree, the
/// total gas used so far, the backtrace entries this call subtree
/// contributes (empty on success; innermost first on failure), the exit
/// code, the returned bytes, and whether the failure is fatal to the whole
/// message (out of gas), which no ancestor can catch.
pub ghost struct SendOutcome {
    pub tree: TreeModel,
    pub gas_used: u64,
    pub backtrace: Seq<CallErrorModel>,
    pub code: ExitCode,
    pub ret: Seq<u8>,
    pub fatal: bool,
}

/// A failed invocation: the tree reverts to `tree`, one backtrace entry is
/// recorded for the faulting frame, nothing is returned.
pub open spec fn failed_outcome(
    tree: TreeModel,
    gas_used: u64,
    source: ActorID,
    code: ExitCode,
) -> SendOutcome {
    SendOutcome {
        tree,
        gas_used,
        backtrace: seq![
            CallErrorModel { source, code, message: spec_code_text(code) },
        ],
        code,
        ret: Seq::empty(),
        fatal: false,
    }
}

/// Gas exhaustion: the whole remaining budget is consumed, the frame's
/// changes revert, and the failure is fatal to every open frame.
pub open spec fn oog_outcome(tree: TreeModel, gas_limit: u64) -> SendOutcome {
    SendOutcome {
        tree,
        gas_used: gas_limit,
        backtrace: seq![
            CallErrorModel {
                source: 0,
                code: ExitCode::SysOutOfGas,
                message: spec_code_text(ExitCode::SysOutOfGas),
            },
        ],
        code: ExitCode::SysOutOfGas,
        ret: Seq::empty(),
        fatal: true,
    }
}

/// A successful invocation: changes are kept, no backtrace is contributed.
pub open spec fn ok_outcome(tree: TreeModel, gas_used: u64, ret: Seq<u8>) -> SendOutcome {
    SendOutcome {
        tree,
        gas_used,
        backtrace: Seq::empty(),
        code: ExitCode::Success,
        ret,
        fatal: false,
    }
}

/// The backtrace entry an ancestor frame records when it fails because a
/// nested call failed and the failure was not caught.
pub open spec fn propagate_entry(actor: ActorID, code: ExitCode) -> CallErrorModel {
    CallErrorModel { source: actor, code, message: spec_code_text(code) }
}

/// The metered operation one script step reports, if it is a plain
/// resource report rather than a send or an abort.
pub open spec fn metered_operation(op: ActorOp) -> Option<Operation> {
    match op {
        ActorOp::Compute { steps } => Some(Operation::Compute { steps }),
        ActorOp::Memory { bytes } => Some(Operation::Memory { bytes }),
        ActorOp::StorageGet { bytes } => Some(Operation::StorageGet { bytes }),
        ActorOp::StoragePut { bytes } => Some(Operation::StoragePut { bytes }),
        ActorOp::Syscall { units } => Some(Operation::Syscall { units }),
        ActorOp::Send { .. } => None,
        ActorOp::Abort { .. } => None,
    }
}

fn operation_of(op: ActorOp) -> (r: Option<Operation>)
    ensures
        r == metered_operation(op),
{
    match op {
        ActorOp::Compute { steps } => Some(Operation::Compute { steps }),
        ActorOp::Memory { bytes } => Some(Operation::Memory { bytes }),
        ActorOp::StorageGet { bytes } => Some(Operation::StorageGet { bytes }),
        ActorOp::StoragePut { bytes } => Some(Operation::StoragePut { bytes }),
        ActorOp::Syscall { units } => Some(Operation::Syscall { units }),
        ActorOp::Send { .. } => None,
        ActorOp::Abort { .. } => None,
    }
}

/// What one invocation does, as a function of the environment, the tree,
/// the gas spent so far, the caller, the callee address, the method, the
/// accompanying value, and the remaining call-depth budget. This is the
/// definition the executable call manager is verified against; execution is
/// deterministic because the outcome is a function of these arguments
/// alone.
///
/// In order: a frame with no depth budget fails; the fixed send cost is
/// charged; the callee address must resolve; the caller must exist and
/// cover the value, which is then transferred; method 0 is a bare transfer
/// and completes; otherwise the callee's code must resolve to a module,
/// whose steps then run. Failures revert to the tree as it stood on entry;
/// the gas already charged is kept.
pub open spec fn spec_send(
    env: Env,
    tree: TreeModel,
    gas_used: u64,
    from: ActorID,
    to: Address,
    method: u64,
    value: TokenAmount,
    depth_budget: u64,
) -> SendOutcome
    decreases depth_budget, 1int, 0int,
{
    if depth_budget == 0 {
        failed_outcome(tree, gas_used, 0, ExitCode::SysLimitExceeded)
    } else {
        let charged = spec_charge(env.gas_limit, gas_used, env.prices.spec_cost(Operation::Send));
        if !charged.1 {
            oog_outcome(tree, env.gas_limit)
        } else {
            let g1 = charged.0;
            match tree.resolve(to) {
                None => failed_outcome(tree, g1, 0, ExitCode::SysActorNotFound),
                Some(callee) => {
                    if !tree.has_actor(from) {
                        failed_outcome(tree, g1, 0, ExitCode::SysActorNotFound)
                    } else if tree.actor(from)->Some_0.balance < value {
                        failed_outcome(tree, g1, 0, ExitCode::SysInsufficientFunds)
                    } else {
                        let t1 = tree.transfer_model(from, callee, value);
                        if method == 0 {
                            ok_outcome(t1, g1, Seq::empty())
                        } else {
                            match find_module(env.modules, t1.actor(callee)->Some_0.code, 0) {
                                None => failed_outcome(tree, g1, 0, ExitCode::SysActorNotFound),
                                Some(m) => spec_run_ops(
                                    env,
                                    tree,
                                    t1,
                                    g1,
                                    callee,
                                    m,
                                    0,
                                    depth_budget,
                                ),
                            }
                        }
                    }
                },
            }
        }
    }
}

/// Runs the steps of `m` from index `i` for the frame of `actor`, with
/// `tree0` the tree to which a failure of this frame reverts. Nested sends
/// run depth-first with one budget unit less; an uncaught non-success
/// result fails this frame with the callee's code, appending this frame's
/// entry after the callee subtree's (innermost first); a caught one leaves
/// no trace at all. Out of gas is never caught.
pub open spec fn spec_run_ops(
    env: Env,
    tree0: TreeModel,
    tree: TreeModel,
    gas_used: u64,
    actor: ActorID,
    m: ModuleModel,
    i: int,
    depth_budget: u64,
) -> SendOutcome
    decreases depth_budget, 0int, m.ops.len() - i,
{
    if i < 0 || i >= m.ops.len() {
        ok_outcome(tree, gas_used, m.ret)
    } else {
        match m.ops[i] {
            ActorOp::Abort { code } => failed_outcome(
                tree0,
                gas_used,
                actor,
                ExitCode::ActorAbort(code),
            ),
            ActorOp::Send { to, method, value, catch } => {
                let r = if depth_budget == 0 {
                    failed_outcome(tree, gas_used, 0, ExitCode::SysLimitExceeded)
                } else {
                    spec_send(
                        env,
                        tree,
                        gas_used,
                        actor,
                        to,
                        method,
                        value,
                        (depth_budget - 1) as u64,
                    )
                };
                if r.fatal {
                    SendOutcome {
                        tree: tree0,
                        gas_used: r.gas_used,
                        backtrace: r.backtrace.push(propagate_entry(actor, r.code)),
                        code: r.code,
                        ret: Seq::empty(),
                        fatal: true,
                    }
                } else if r.code.spec_is_success() || catch {
                    spec_run_ops(env, tree0, r.tree, r.gas_used, actor, m, i + 1, depth_budget)
                } else {
                    SendOutcome {
                        tree: tree0,
                        gas_used: r.gas_used,
                        backtrace: r.backtrace.push(propagate_entry(actor, r.code)),
                        code: r.code,
                        ret: Seq::empty(),
                        fatal: false,
                    }
                }
            },
            op => {
                let charged = spec_charge(
                    env.gas_limit,
                    gas_used,
                    env.prices.spec_cost(metered_operation(op)->Some_0),
                );
                if !charged.1 {
                    oog_outcome(tree0, env.gas_limit)
                } else {
                    spec_run_ops(env, tree0, tree, charged.0, actor, m, i + 1, depth_budget)
                }
            },
        }
    }
}

/// The facts the session laws state of an outcome `r`, relative to the
/// tree `base` the invocation started from and the gas `gas0` already
/// spent when it started.
pub open spec fn session_props(env: Env, gas0: u64, base: TreeModel, r: SendOutcome) -> bool {
    &&& gas0 <= r.gas_used
    &&& r.gas_used <= env.gas_limit
    &&& (r.fatal ==> r.code == ExitCode::SysOutOfGas && r.gas_used == env.gas_limit)
    &&& (!r.code.spec_is_success() ==> r.tree == base)
    &&& (r.code.spec_is_success() ==> r.backtrace == Seq::<CallErrorModel>::empty())
    &&& (!r.code.spec_is_success() ==> r.backtrace.len() >= 1)
    &&& crate::state_tree::sum_balances(r.tree.actors) == crate::state_tree::sum_balances(
        base.actors,
    )
    &&& (forall|j: ActorID| #[trigger] r.tree.has_actor(j) <==> base.has_actor(j))
    &&& r.tree.bindings == base.bindings
}

/// The laws of one invocation, proved by induction over the send
/// specification. With `r` the outcome of `spec_send` on these arguments:
/// gas already spent only grows and never exceeds the declared gas limit,
/// and exhausting the limit always surfaces as the fatal out-of-gas exit
/// code with the whole budget consumed — never a silent truncation. If the
/// exit code is not success the resulting tree is exactly the tree the
/// invocation started from (no partial writes survive), and the backtrace
/// names at least the faulting frame; on success the backtrace is empty.
/// The sum of all balances, the set of existing actors and the address
/// bindings are preserved in every case.
pub proof fn lemma_send_outcome(
    env: Env,
    tree: TreeModel,
    gas_used: u64,
    from: ActorID,
    to: Address,
    method: u64,
    value: TokenAmount,
    depth_budget: u64,
)
    requires
        gas_used <= env.gas_limit,
        tree.bindings_valid(),
        crate::state_tree::sum_balances(tree.actors) <= u128::MAX,
    ensures
        session_props(
            env,
            gas_used,
            tree,
            spec_send(env, tree, gas_used, from, to, method, value, depth_budget),
        ),
    decreases depth_budget, 1int, 0int,
{
    if depth_budget == 0 {
    } else {
        let charged = spec_charge(env.gas_limit, gas_used, env.prices.spec_cost(Operation::Send));
        if charged.1 {
            let g1 = charged.0;
            match tree.resolve(to) {
                None => {
                },
                Some(callee) => {
                    crate::state_tree::lemma_resolve_has_actor(tree, to);
                    if tree.has_actor(from) && tree.actor(from)->Some_0.balance >= value {
                        crate::state_tree::lemma_transfer_model(tree, from, callee, value);
                        let t1 = tree.transfer_model(from, callee, value);
                        if method != 0 {
                            match find_module(env.modules, t1.actor(callee)->Some_0.code, 0) {
                                None => {
                                },
                                Some(m) => {
                                    assert(t1.bindings_valid());
                                    lemma_run_ops_outcome(
                                        env,
                                        tree,
                                        t1,
                                        g1,
                                        callee,
                                        m,
                                        0,
                                        depth_budget,
                                    );
                                },
                            }
                        }
                    }
                },
            }
        }
    }
}

/// The same laws for a frame running its script from step `i`, relative to
/// `tree0`, the tree to which a failure of the frame reverts.
pub proof fn lemma_run_ops_outcome(
    env: Env,
    tree0: TreeModel,
    tree: TreeModel,
    gas_used: u64,
    actor: ActorID,
    m: ModuleModel,
    i: int,
    depth_budget: u64,
)
    requires
        gas_used <= env.gas_limit,
        tree.bindings_valid(),
        crate::state_tree::sum_balances(tree0.actors) <= u128::MAX,
        crate::state_tree::sum_balances(tree.actors) == crate::state_tree::sum_balances(
            tree0.actors,
        ),
        forall|j: ActorID| #[trigger] tree.has_actor(j) <==> tree0.has_actor(j),
        tree.bindings == tree0.bindings,
    ensures
        session_props(
            env,
            gas_used,
            tree0,
            spec_run_ops(env, tree0, tree, gas_used, actor, m, i, depth_budget),
        ),
    decreases depth_budget, 0int, m.ops.len() - i,
{
    let rr = spec_run_ops(env, tree0, tree, gas_used, actor, m, i, depth_budget);
    if i < 0 || i >= m.ops.len() {
        assert(session_props(env, gas_used, tree0, rr));
    } else {
        match m.ops[i] {
            ActorOp::Abort { .. } => {
                assert(session_props(env, gas_used, tree0, rr));
            },
            ActorOp::Send { to, method, value, catch } => {
                if depth_budget != 0 {
                    lemma_send_outcome(
                        env,
                        tree,
                        gas_used,
                        actor,
                        to,
                        method,
                        value,
                        (depth_budget - 1) as u64,
                    );
                }
                let r = if depth_budget == 0 {
                    failed_outcome(tree, gas_used, 0, ExitCode::SysLimitExceeded)
                } else {
                    spec_send(env, tree, gas_used, actor, to, method, value, (depth_budget
                        - 1) as u64)
                };
                assert(session_props(env, gas_used, tree, r));
                if r.fatal {
                    assert(session_props(env, gas_used, tree0, rr));
                } else if r.code.spec_is_success() || catch {
                    assert forall|i2: int|
                        0 <= i2 < r.tree.bindings.len() implies r.tree.actor(
                        #[trigger] r.tree.bindings[i2].1,
                    ) is Some by {
                        let j = tree.bindings[i2].1;
                        assert(tree.actor(j) is Some);
                        assert(tree.has_actor(j));
                        assert(r.tree.has_actor(j));
                    }
                    assert forall|j: ActorID| #[trigger] r.tree.has_actor(j) <==> tree0.has_actor(
                        j,
                    ) by {
                        assert(r.tree.has_actor(j) <==> tree.has_actor(j));
                        assert(tree.has_actor(j) <==> tree0.has_actor(j));
                    }
                    lemma_run_ops_outcome(
                        env,
                        tree0,
                        r.tree,
                        r.gas_used,
                        actor,
                        m,
                        i + 1,
                        depth_budget,
                    );
                    assert(session_props(env, gas_used, tree0, rr));
                } else {
                    assert(session_props(env, gas_used, tree0, rr));
                }
            },
            op => {
                let charged = spec_charge(
                    env.gas_limit,
                    gas_used,
                    env.prices.spec_cost(metered_operation(op)->Some_0),
                );
                if charged.1 {
                    lemma_run_ops_outcome(
                        env,
                        tree0,
                        tree,
                        charged.0,
                        actor,
                        m,
                        i + 1,
                        depth_budget,
                    );
                    assert(session_props(env, gas_used, tree0, rr));
                } else {
                    assert(session_props(env, gas_used, tree0, rr));
                }
            },
        }
    }
}

/// Whenever any work is attempted — the frame has depth budget and a
/// positive send cost under a positive gas limit — the invocation's
/// reported gas used is nonzero, on success and on failure alike: gas
/// spent is never refunded.
pub proof fn lemma_send_charges_work(
    env: Env,
    tree: TreeModel,
    from: ActorID,
    to: Address,
    method: u64,
    value: TokenAmount,
    depth_budget: u64,
)
    requires
        depth_budget > 0,
        env.prices.send_base > 0,
        env.gas_limit > 0,
        tree.bindings_valid(),
        crate::state_tree::sum_balances(tree.actors) <= u128::MAX,
    ensures
        spec_send(env, tree, 0, from, to, method, value, depth_budget).gas_used > 0,
{
    let charged = spec_charge(env.gas_limit, 0, env.prices.spec_cost(Operation::Send));
    if charged.1 {
        let g1 = charged.0;
        match tree.resolve(to) {
            None => {
            },
            Some(callee) => {
                crate::state_tree::lemma_resolve_has_actor(tree, to);
                if tree.has_actor(from) && tree.actor(from)->Some_0.balance >= value {
                    crate::state_tree::lemma_transfer_model(tree, from, callee, value);
                    let t1 = tree.transfer_model(from, callee, value);
                    if method != 0 {
                        match find_module(env.modules, t1.actor(callee)->Some_0.code, 0) {
                            None => {
                            },
                            Some(m) => {
                                assert(t1.bindings_valid());
                                lemma_run_ops_outcome(env, tree, t1, g1, callee, m, 0, depth_budget);
                            },
                        }
                    }
                }
            },
        }
    }
}

/// The executable result of one invocation.
pub struct SendRet {
    pub code: ExitCode,
    pub ret: Vec<u8>,
    pub backtrace: Vec<CallError>,
    pub fatal: bool,
}

impl SendRet {
    /// The backtrace entries as their models.
    pub open spec fn bt(&self) -> Seq<CallErrorModel> {
        self.backtrace@.map_values(|e: CallError| e@)
    }

    /// Whether this result matches an outcome of the send specification.
    pub open spec fn matches(&self, o: SendOutcome) -> bool {
        &&& self.code == o.code
        &&& self.ret@ == o.ret
        &&& self.bt() == o.backtrace
        &&& self.fatal == o.fatal
    }
}

fn fail_ret(source: ActorID, code: ExitCode) -> (r: SendRet)
    ensures
        r.code == code,
        r.fatal == false,
        r.ret@ == Seq::<u8>::empty(),
        r.bt() == seq![CallErrorModel { source, code, message: spec_code_text(code) }],
{
    let r = SendRet {
        code,
        ret: Vec::new(),
        backtrace: vec![CallError { source, code, message: code_text(&code) }],
        fatal: false,
    };
    proof {
        assert(r.ret@ =~= Seq::<u8>::empty());
        assert(r.bt() =~= seq![CallErrorModel { source, code, message: spec_code_text(code) }]);
    }
    r
}

fn oog_ret() -> (r: SendRet)
    ensures
        r.code == ExitCode::SysOutOfGas,
        r.fatal == true,
        r.ret@ == Seq::<u8>::empty(),
        r.bt() == seq![
            CallErrorModel {
                source: 0,
                code: ExitCode::SysOutOfGas,
                message: spec_code_text(ExitCode::SysOutOfGas),
            },
        ],
{
    let code = ExitCode::SysOutOfGas;
    let r = SendRet {
        code,
        ret: Vec::new(),
        backtrace: vec![CallError { source: 0, code, message: code_text(&code) }],
        fatal: true,
    };
    proof {
        assert(r.ret@ =~= Seq::<u8>::empty());
        assert(r.bt() =~= seq![
            CallErrorModel { source: 0, code, message: spec_code_text(code) },
        ]);
    }
    r
}

/// Drives one top-level message: it owns the machine for the session,
/// tracks the single shared gas counter, and decides commit or revert for
/// every nested call through state-tree snapshots.
pub struct CallManager {
    machine: Machine,
    gas: GasTracker,
}

impl CallManager {
    /// The machine this session runs over.
    pub closed spec fn spec_machine(&self) -> Machine {
        self.machine
    }

    /// The session's gas counter.
    pub closed spec fn spec_gas(&self) -> GasTracker {
        self.gas
    }

    /// The session's immutable environment.
    pub open spec fn env(&self) -> Env {
        Env {
            modules: self.spec_machine().modules(),
            prices: self.spec_machine().spec_context().spec_price_list(),
            gas_limit: self.spec_gas().gas_limit,
        }
    }

    pub open spec fn wf(&self) -> bool {
        &&& self.spec_machine().wf()
        &&& self.spec_gas().wf()
    }

    /// Begin a session over `machine` with the message's gas limit.
    pub fn new(machine: Machine, gas_limit: u64) -> (cm: CallManager)
        ensures
            cm.wf() == machine.wf(),
            cm.spec_machine() == machine,
            cm.spec_gas() == (GasTracker { gas_limit, gas_used: 0 }),
    {
        CallManager { machine, gas: GasTracker::new(gas_limit) }
    }

    /// Total gas used so far in this session.
    pub fn gas_used(&self) -> (g: u64)
        ensures
            g == self.spec_gas().gas_used,
    {
        self.gas.gas_used
    }

    /// End the session, returning the total gas used and the machine.
    pub fn finish(self) -> (r: (u64, Machine))
        ensures
            r.0 == self.spec_gas().gas_used,
            r.1 == self.spec_machine(),
    {
        let CallManager { machine, gas } = self;
        (gas.gas_used, machine)
    }

    /// Invoke method `method` of the actor at `to` on behalf of `from`,
    /// transferring `value`, with `depth_budget` nested levels allowed. The
    /// whole effect — resulting tree, gas, backtrace, exit code, returned
    /// bytes, fatality — is exactly the send specification's outcome.
    pub fn send(
        &mut self,
        from: ActorID,
        to: Address,
        method: u64,
        value: TokenAmount,
        depth_budget: u64,
    ) -> (r: SendRet)
        requires
            old(self).wf(),
        ensures
            final(self).wf(),
            final(self).env() == old(self).env(),
            final(self).spec_machine().spec_config() == old(self).spec_machine().spec_config(),
            final(self).spec_machine().spec_context() == old(self).spec_machine().spec_context(),
            final(self).spec_machine().tree_saved() == old(self).spec_machine().tree_saved(),
            ({
                let o = spec_send(
                    old(self).env(),
                    old(self).spec_machine().tree(),
                    old(self).spec_gas().gas_used,
                    from,
                    to,
                    method,
                    value,
                    depth_budget,
                );
                &&& final(self).spec_machine().tree() == o.tree
                &&& final(self).spec_gas().gas_used == o.gas_used
                &&& r.matches(o)
            }),
        decreases depth_budget,
    {
        let ghost o = spec_send(
            old(self).env(),
            old(self).spec_machine().tree(),
            old(self).spec_gas().gas_used,
            from,
            to,
            method,
            value,
            depth_budget,
        );
        if depth_budget == 0 {
            return fail_ret(0, ExitCode::SysLimitExceeded);
        }
        let send_cost = {
            let pl = self.machine.context().price_list();
            pl.cost(Operation::Send)
        };
        if !self.gas.charge(send_cost) {
            return oog_ret();
        }
        let callee = match self.machine.resolve(to) {
            None => {
                return fail_ret(0, ExitCode::SysActorNotFound);
            },
            Some(c) => c,
        };
        let fa = match self.machine.get_actor(from) {
            None => {
                return fail_ret(0, ExitCode::SysActorNotFound);
            },
            Some(fa) => fa,
        };
        if fa.balance < value {
            return fail_ret(0, ExitCode::SysInsufficientFunds);
        }
        let ghost tree0 = self.machine.tree();
        proof {
            crate::state_tree::lemma_wf_resolve_has_actor(
                self.spec_machine().spec_state_tree(),
                to,
            );
        }
        let snap = self.machine.snapshot();
        match self.machine.transfer(from, callee, value) {
            Ok(()) => (),
            Err(_) => {
                proof {
                    assert(false);
                }
                return fail_ret(0, ExitCode::SysIllegalState);
            },
        }
        if method == 0 {
            self.machine.discard(snap);
            let r = SendRet {
                code: ExitCode::Success,
                ret: Vec::new(),
                backtrace: Vec::new(),
                fatal: false,
            };
            proof {
                assert(r.ret@ =~= Seq::<u8>::empty());
                assert(r.bt() =~= Seq::<CallErrorModel>::empty());
            }
            return r;
        }
        let callee_state = match self.machine.get_actor(callee) {
            None => {
                proof {
                    assert(false);
                }
                return fail_ret(0, ExitCode::SysIllegalState);
            },
            Some(cs) => cs,
        };
        let module = match self.machine.load_module(&callee_state.code) {
            None => {
                self.machine.revert(snap);
                return fail_ret(0, ExitCode::SysActorNotFound);
            },
            Some(m) => m,
        };
        let ghost env = old(self).env();
        let ghost t1 = self.machine.tree();
        let ghost g1 = self.gas.gas_used;
        let mut i: usize = 0;
        while i < module.ops.len()
            invariant
                self.wf(),
                self.env() == env,
                env == old(self).env(),
                self.spec_machine().spec_config() == old(self).spec_machine().spec_config(),
                self.spec_machine().spec_context() == old(self).spec_machine().spec_context(),
                snap == old(self).spec_machine().tree_saved().len(),
                self.spec_machine().tree_saved() == old(self).spec_machine().tree_saved().push(
                    tree0,
                ),
                tree0 == old(self).spec_machine().tree(),
                i <= module.ops@.len(),
                depth_budget >= 1,
                spec_run_ops(
                    env,
                    tree0,
                    self.spec_machine().tree(),
                    self.spec_gas().gas_used,
                    callee,
                    module@,
                    i as int,
                    depth_budget,
                ) == spec_run_ops(env, tree0, t1, g1, callee, module@, 0, depth_budget),
                o == spec_run_ops(env, tree0, t1, g1, callee, module@, 0, depth_budget),
                o == spec_send(
                    old(self).env(),
                    old(self).spec_machine().tree(),
                    old(self).spec_gas().gas_used,
                    from,
                    to,
                    method,
                    value,
                    depth_budget,
                ),
            decreases module.ops@.len() - i,
        {
            let op = module.ops[i];
            proof {
                assert(module.ops@[i as int] == op);
            }
            match operation_of(op) {
                Some(mop) => {
                    if !self.charge_op(mop) {
                        self.machine.revert(snap);

                        proof {
                            assert(old(self).spec_machine().tree_saved().push(tree0).take(
                                snap as int,
                            ) =~= old(self).spec_machine().tree_saved());
                        }
                        return oog_ret();
                    }
                },
                None => match op {
                    ActorOp::Abort { code } => {
                        self.machine.revert(snap);

                        proof {
                            assert(old(self).spec_machine().tree_saved().push(tree0).take(
                                snap as int,
                            ) =~= old(self).spec_machine().tree_saved());
                        }
                        return fail_ret(callee, ExitCode::ActorAbort(code));
                    },
                    ActorOp::Send { to: to2, method: method2, value: value2, catch } => {
                        let mut r = self.send(callee, to2, method2, value2, depth_budget - 1);
                        if r.fatal {
                            self.machine.revert(snap);

                        proof {
                            assert(old(self).spec_machine().tree_saved().push(tree0).take(
                                snap as int,
                            ) =~= old(self).spec_machine().tree_saved());
                        }
                            let own = CallError {
                                source: callee,
                                code: r.code,
                                message: code_text(&r.code),
                            };
                            let ghost before = r.bt();
                            r.backtrace.push(own);
                            r.ret = Vec::new();
                            proof {
                                assert(r.bt() =~= before.push(propagate_entry(callee, r.code)));
                                assert(r.ret@ =~= Seq::<u8>::empty());
                            }
                            return r;
                        } else if r.code.is_success() || catch {
                            // caught or succeeded: continue with the next step
                        } else {
                            self.machine.revert(snap);

                        proof {
                            assert(old(self).spec_machine().tree_saved().push(tree0).take(
                                snap as int,
                            ) =~= old(self).spec_machine().tree_saved());
                        }
                            let own = CallError {
                                source: callee,
                                code: r.code,
                                message: code_text(&r.code),
                            };
                            let ghost before = r.bt();
                            r.backtrace.push(own);
                            r.ret = Vec::new();
                            proof {
                                assert(r.bt() =~= before.push(propagate_entry(callee, r.code)));
                                assert(r.ret@ =~= Seq::<u8>::empty());
                            }
                            return r;
                        }
                    },
                    _ => {
                        proof {
                            assert(false);
                        }
                    },
                },
            }
            i = i + 1;
        }
        self.machine.discard(snap);
        let r = SendRet {
            code: ExitCode::Success,
            ret: module.ret,
            backtrace: Vec::new(),
            fatal: false,
        };
        proof {
            assert(r.bt() =~= Seq::<CallErrorModel>::empty());
        }
        r
    }

    /// Charge one metered operation at the session's prices.
    fn charge_op(&mut self, op: Operation) -> (ok: bool)
        requires
            old(self).wf(),
        ensures
            final(self).wf(),
            final(self).spec_machine() == old(self).spec_machine(),
            final(self).spec_gas().gas_limit == old(self).spec_gas().gas_limit,
            (final(self).spec_gas().gas_used, ok) == spec_charge(
                old(self).spec_gas().gas_limit,
                old(self).spec_gas().gas_used,
                old(self).env().prices.spec_cost(op),
            ),
    {
        let cost = {
            let pl = self.machine.context().price_list();
            pl.cost(op)
        };
        self.gas.charge(cost)
    }
}

} // verus!
