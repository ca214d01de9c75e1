use vstd::prelude::*;

use crate::address::{ActorID, Address, BURNT_FUNDS_ACTOR_ID, REWARD_ACTOR_ID};
use crate::call_manager::{CallManager, Env, SendRet, lemma_send_outcome, spec_send};
use crate::code::ModuleModel;
use crate::econ::TokenAmount;
use crate::gas::PriceList;
use crate::machine::{
    ApplyKind, ApplyRet, ApplyRetModel, ExitCode, Machine, Message, MessageModel, Receipt,
    ReceiptModel, SyscallError, code_text, spec_code_text, spec_prevalidation_fail,
};
use crate::state_tree::{
    ActorState, Cid, TreeModel, lemma_sum_bound, lemma_wf_model, lemma_with_actor_model,
    sum_balances,
};

verus! {

/// Chain-wide upper bound on one explicit message's declared gas limit;
/// declaring more fails prevalidation and forfeits the penalty.
pub const BLOCK_GAS_LIMIT: u64 = 10_000_000_000;

/// The smaller of two token amounts.
pub open spec fn min_amount(a: TokenAmount, b: TokenAmount) -> TokenAmount {
    if a <= b {
        a
    } else {
        b
    }
}

/// The flat miner penalty of a message rejected before execution: the base
/// fee over the whole declared gas limit, saturating.
pub open spec fn spec_penalty(base_fee: TokenAmount, gas_limit: u64) -> TokenAmount {
    if base_fee * gas_limit > u128::MAX {
        u128::MAX
    } else {
        (base_fee * gas_limit) as u128
    }
}

/// What an explicit sender must be able to cover before any gas is spent:
/// the whole gas prepayment plus the transferred value.
pub open spec fn spec_required_funds(msg: MessageModel) -> int {
    msg.gas_limit * msg.gas_fee_cap + msg.value
}

/// The result of applying one message: the return data and the resulting
/// tree.
pub ghost struct ApplyOut {
    pub ret: ApplyRetModel,
    pub tree: TreeModel,
}

/// A prevalidation failure: the tree is untouched, the receipt shows zero
/// gas, and the penalty is forfeited.
pub open spec fn pv_out(tree: TreeModel, code: ExitCode, penalty: TokenAmount) -> ApplyOut {
    ApplyOut { ret: spec_prevalidation_fail(spec_code_text(code), code, penalty), tree }
}

/// The tree after crediting `v` to the balance of existing actor `id`.
pub open spec fn credit_model(m: TreeModel, id: ActorID, v: TokenAmount) -> TreeModel {
    let a = m.actor(id)->Some_0;
    m.with_actor(
        id,
        ActorState { code: a.code, state: a.state, balance: (a.balance + v) as u128, sequence: a.sequence },
    )
}

/// What applying one message does, as a function of the initial tree, the
/// registered modules, the prices, the base fee, the call-depth bound, the
/// message and its kind. The executable executor is verified against this
/// definition, so two applications of the same message to the same state
/// produce the same result and the same resulting tree.
///
/// An explicit message is prevalidated before any gas is spent: the gas
/// limit must respect the chain-wide bound, the sender must exist, the
/// sender's sequence number must equal the message's (and be incrementable),
/// and the sender must cover `gas_limit * gas_fee_cap + value`; the
/// reserved burnt-funds and reward actors must exist to settle fees. Any
/// violation yields a prevalidation failure with zero gas used, a penalty,
/// and no state mutation whatsoever. On entry the sender's sequence number
/// is incremented and the prepayment `gas_limit * gas_fee_cap` deducted;
/// after the call manager finishes, the base-fee portion of the realized
/// gas is burnt to the burnt-funds actor, the premium portion of the whole
/// limit is tipped to the reward actor, and the rest is refunded.
///
/// An implicit message skips sequence and funds validation and all fee
/// handling; only its sender must resolve.
pub open spec fn spec_apply(
    tree: TreeModel,
    modules: Seq<(Cid, ModuleModel)>,
    prices: PriceList,
    base_fee: TokenAmount,
    max_call_depth: u64,
    msg: MessageModel,
    kind: ApplyKind,
) -> ApplyOut {
    let penalty = spec_penalty(base_fee, msg.gas_limit);
    let env = Env { modules, prices, gas_limit: msg.gas_limit };
    match kind {
        ApplyKind::Implicit => match tree.resolve(msg.from) {
            None => pv_out(tree, ExitCode::SysSenderInvalid, 0),
            Some(sender) => {
                let out = spec_send(
                    env,
                    tree,
                    0,
                    sender,
                    msg.to,
                    msg.method,
                    msg.value,
                    max_call_depth,
                );
                ApplyOut {
                    ret: ApplyRetModel {
                        msg_receipt: ReceiptModel {
                            exit_code: out.code,
                            return_data: out.ret,
                            gas_used: out.gas_used,
                        },
                        backtrace: out.backtrace,
                        penalty: 0,
                        miner_tip: 0,
                    },
                    tree: out.tree,
                }
            },
        },
        ApplyKind::Explicit => {
            if msg.gas_limit > BLOCK_GAS_LIMIT {
                pv_out(tree, ExitCode::SysSenderStateInvalid, penalty)
            } else {
                match tree.resolve(msg.from) {
                    None => pv_out(tree, ExitCode::SysSenderInvalid, penalty),
                    Some(sender) => {
                        let st = tree.actor(sender)->Some_0;
                        if st.sequence != msg.sequence {
                            pv_out(tree, ExitCode::SysSenderStateInvalid, penalty)
                        } else if st.sequence == u64::MAX {
                            pv_out(tree, ExitCode::SysSenderStateInvalid, penalty)
                        } else if (st.balance as int) < spec_required_funds(msg) {
                            pv_out(tree, ExitCode::SysSenderStateInvalid, penalty)
                        } else if !tree.has_actor(BURNT_FUNDS_ACTOR_ID) || !tree.has_actor(
                            REWARD_ACTOR_ID,
                        ) {
                            pv_out(tree, ExitCode::SysIllegalState, penalty)
                        } else {
                            let upfront = (msg.gas_limit * msg.gas_fee_cap) as u128;
                            let t1 = tree.with_actor(
                                sender,
                                ActorState {
                                    code: st.code,
                                    state: st.state,
                                    balance: (st.balance - upfront) as u128,
                                    sequence: (st.sequence + 1) as u64,
                                },
                            );
                            let out = spec_send(
                                env,
                                t1,
                                0,
                                sender,
                                msg.to,
                                msg.method,
                                msg.value,
                                max_call_depth,
                            );
                            let base = min_amount(base_fee, msg.gas_fee_cap);
                            let prem = min_amount(
                                msg.gas_premium,
                                (msg.gas_fee_cap - base) as u128,
                            );
                            let burn = (base * out.gas_used) as u128;
                            let tip = (prem * msg.gas_limit) as u128;
                            let refund = (upfront - burn - tip) as u128;
                            let t2 = credit_model(out.tree, sender, refund);
                            let t3 = credit_model(t2, BURNT_FUNDS_ACTOR_ID, burn);
                            let t4 = credit_model(t3, REWARD_ACTOR_ID, tip);
                            ApplyOut {
                                ret: ApplyRetModel {
                                    msg_receipt: ReceiptModel {
                                        exit_code: out.code,
                                        return_data: out.ret,
                                        gas_used: out.gas_used,
                                    },
                                    backtrace: out.backtrace,
                                    penalty: 0,
                                    miner_tip: tip,
                                },
                                tree: t4,
                            }
                        }
                    },
                }
            }
        },
    }
}

/// An explicit message whose sequence number does not equal the sender's
/// current one always fails prevalidation — whatever the rest of its
/// content — with zero gas used, a non-success exit code, one backtrace
/// entry, and no state mutation whatsoever.
pub proof fn lemma_sequence_enforcement(
    tree: TreeModel,
    modules: Seq<(Cid, ModuleModel)>,
    prices: PriceList,
    base_fee: TokenAmount,
    max_call_depth: u64,
    msg: MessageModel,
)
    requires
        tree.resolve(msg.from) is Some,
        tree.actor(tree.resolve(msg.from)->Some_0)->Some_0.sequence != msg.sequence,
    ensures
        ({
            let r = spec_apply(
                tree,
                modules,
                prices,
                base_fee,
                max_call_depth,
                msg,
                ApplyKind::Explicit,
            );
            &&& r.tree == tree
            &&& r.ret.msg_receipt.gas_used == 0
            &&& !r.ret.msg_receipt.exit_code.spec_is_success()
            &&& r.ret.backtrace.len() == 1
            &&& r.ret.miner_tip == 0
        }),
{
}

/// Atomicity at the message level, for messages without fee handling: when
/// the final exit code is not success, the resulting tree equals the
/// initial tree exactly — no partial writes survive — while the receipt
/// still reports all gas charged for the attempted work.
pub proof fn lemma_implicit_atomicity(
    tree: TreeModel,
    modules: Seq<(Cid, ModuleModel)>,
    prices: PriceList,
    base_fee: TokenAmount,
    max_call_depth: u64,
    msg: MessageModel,
)
    requires
        tree.bindings_valid(),
        sum_balances(tree.actors) <= u128::MAX,
    ensures
        ({
            let r = spec_apply(
                tree,
                modules,
                prices,
                base_fee,
                max_call_depth,
                msg,
                ApplyKind::Implicit,
            );
            !r.ret.msg_receipt.exit_code.spec_is_success() ==> r.tree == tree
        }),
{
    let env = Env { modules, prices, gas_limit: msg.gas_limit };
    match tree.resolve(msg.from) {
        None => {
        },
        Some(sender) => {
            lemma_send_outcome(
                env,
                tree,
                0,
                sender,
                msg.to,
                msg.method,
                msg.value,
                max_call_depth,
            );
        },
    }
}

/// The public entry point: validates one message against the chain rules
/// and drives its execution through a call manager over the machine.
pub struct Executor {
    machine: Machine,
}

impl Executor {
    pub closed spec fn spec_machine(&self) -> Machine {
        self.machine
    }

    pub open spec fn wf(&self) -> bool {
        self.spec_machine().wf()
    }

    pub fn new(machine: Machine) -> (e: Executor)
        ensures
            e.spec_machine() == machine,
    {
        Executor { machine }
    }

    /// The machine, for inspection.
    pub fn machine(&self) -> (m: &Machine)
        ensures
            *m == self.spec_machine(),
    {
        &self.machine
    }

    /// End this executor's life, handing the machine back.
    pub fn into_machine(self) -> (m: Machine)
        ensures
            m == self.spec_machine(),
    {
        let Executor { machine } = self;
        machine
    }

    /// Apply one message. The receipt, backtrace, penalty and tip, and the
    /// resulting state tree, are exactly what the apply specification
    /// yields for the machine's prior state and this message: every failure
    /// resolves to a well-formed result.
    pub fn execute_message(&mut self, msg: Message, kind: ApplyKind) -> (r: ApplyRet)
        requires
            old(self).wf(),
        ensures
            final(self).wf(),
            final(self).spec_machine().modules() == old(self).spec_machine().modules(),
            final(self).spec_machine().spec_config() == old(self).spec_machine().spec_config(),
            final(self).spec_machine().spec_context() == old(self).spec_machine().spec_context(),
            final(self).spec_machine().tree_saved() == old(self).spec_machine().tree_saved(),
            ({
                let o = spec_apply(
                    old(self).spec_machine().tree(),
                    old(self).spec_machine().modules(),
                    old(self).spec_machine().spec_context().spec_price_list(),
                    old(self).spec_machine().spec_context().spec_base_fee(),
                    old(self).spec_machine().spec_config().max_call_depth,
                    msg@,
                    kind,
                );
                &&& final(self).spec_machine().tree() == o.tree
                &&& r@ == o.ret
            }),
    {
        let base_fee = self.machine.context().base_fee();
        let penalty = match base_fee.checked_mul(msg.gas_limit as u128) {
            Some(p) => p,
            None => u128::MAX,
        };
        match kind {
            ApplyKind::Implicit => {
                let sender = match self.machine.resolve(msg.from) {
                    None => {
                        let code = ExitCode::SysSenderInvalid;
                        return ApplyRet::prevalidation_fail(SyscallError(code_text(&code), code), 0);
                    },
                    Some(s) => s,
                };
                let (ret, gas_used) = self.run_send(
                    msg.gas_limit,
                    sender,
                    msg.to,
                    msg.method,
                    msg.value,
                );
                let SendRet { code, ret: return_data, backtrace, fatal: _ } = ret;
                ApplyRet {
                    msg_receipt: Receipt { exit_code: code, return_data, gas_used },
                    backtrace,
                    penalty: 0,
                    miner_tip: 0,
                }
            },
            ApplyKind::Explicit => {
                if msg.gas_limit > BLOCK_GAS_LIMIT {
                    let code = ExitCode::SysSenderStateInvalid;
                    return ApplyRet::prevalidation_fail(
                        SyscallError(code_text(&code), code),
                        penalty,
                    );
                }
                let sender = match self.machine.resolve(msg.from) {
                    None => {
                        let code = ExitCode::SysSenderInvalid;
                        return ApplyRet::prevalidation_fail(
                            SyscallError(code_text(&code), code),
                            penalty,
                        );
                    },
                    Some(s) => s,
                };
                let st = match self.machine.get_actor(sender) {
                    None => {
                        proof {
                            crate::state_tree::lemma_wf_resolve_has_actor(
                                self.machine.spec_state_tree(),
                                msg.from,
                            );
                            assert(false);
                        }
                        let code = ExitCode::SysSenderInvalid;
                        return ApplyRet::prevalidation_fail(
                            SyscallError(code_text(&code), code),
                            penalty,
                        );
                    },
                    Some(st) => st,
                };
                if st.sequence != msg.sequence || st.sequence == u64::MAX {
                    let code = ExitCode::SysSenderStateInvalid;
                    return ApplyRet::prevalidation_fail(
                        SyscallError(code_text(&code), code),
                        penalty,
                    );
                }
                // required funds: gas_limit * gas_fee_cap + value, in exact
                // integer arithmetic
                let upfront = match (msg.gas_limit as u128).checked_mul(msg.gas_fee_cap) {
                    None => {
                        let code = ExitCode::SysSenderStateInvalid;
                        return ApplyRet::prevalidation_fail(
                            SyscallError(code_text(&code), code),
                            penalty,
                        );
                    },
                    Some(u) => u,
                };
                let required = match upfront.checked_add(msg.value) {
                    None => {
                        let code = ExitCode::SysSenderStateInvalid;
                        return ApplyRet::prevalidation_fail(
                            SyscallError(code_text(&code), code),
                            penalty,
                        );
                    },
                    Some(q) => q,
                };
                if st.balance < required {
                    let code = ExitCode::SysSenderStateInvalid;
                    return ApplyRet::prevalidation_fail(
                        SyscallError(code_text(&code), code),
                        penalty,
                    );
                }
                if self.machine.get_actor(BURNT_FUNDS_ACTOR_ID).is_none() || self.machine.get_actor(
                    REWARD_ACTOR_ID,
                ).is_none() {
                    let code = ExitCode::SysIllegalState;
                    return ApplyRet::prevalidation_fail(
                        SyscallError(code_text(&code), code),
                        penalty,
                    );
                }
                // enter: increment the sequence number and deduct the
                // prepayment in one state-tree update
                let total = self.machine.state_tree().total_balance();
                proof {
                    lemma_sum_bound(self.machine.tree().actors, sender as int);
                }
                let entered = ActorState {
                    code: st.code,
                    state: st.state,
                    balance: st.balance - upfront,
                    sequence: st.sequence + 1,
                };
                match self.machine.set_actor(sender, entered) {
                    Ok(()) => (),
                    Err(_) => {
                        proof {
                            assert(false);
                        }
                        let code = ExitCode::SysIllegalState;
                        return ApplyRet::prevalidation_fail(
                            SyscallError(code_text(&code), code),
                            penalty,
                        );
                    },
                }
                let ghost t1 = self.machine.tree();
                proof {
                    lemma_with_actor_model(old(self).spec_machine().tree(), sender, entered);
                }
                let (ret, gas_used) = self.run_send(
                    msg.gas_limit,
                    sender,
                    msg.to,
                    msg.method,
                    msg.value,
                );
                proof {
                    lemma_wf_model(old(self).spec_machine().spec_state_tree());
                    assert forall|i2: int|
                        0 <= i2 < t1.bindings.len() implies t1.actor(
                        #[trigger] t1.bindings[i2].1,
                    ) is Some by {
                        let j = old(self).spec_machine().tree().bindings[i2].1;
                        assert(old(self).spec_machine().tree().actor(j) is Some);
                    }
                    lemma_send_outcome(
                        Env {
                            modules: old(self).spec_machine().modules(),
                            prices: old(self).spec_machine().spec_context().spec_price_list(),
                            gas_limit: msg.gas_limit,
                        },
                        t1,
                        0,
                        sender,
                        msg.to,
                        msg.method,
                        msg.value,
                        old(self).spec_machine().spec_config().max_call_depth,
                    );
                }
                // settle fees: burn the base-fee share of the realized gas,
                // tip the premium share of the whole limit, refund the rest
                let base = if base_fee <= msg.gas_fee_cap {
                    base_fee
                } else {
                    msg.gas_fee_cap
                };
                let prem = if msg.gas_premium <= msg.gas_fee_cap - base {
                    msg.gas_premium
                } else {
                    msg.gas_fee_cap - base
                };
                proof {
                    assert((base as int) * (gas_used as int) <= (msg.gas_limit as int) * (
                    msg.gas_fee_cap as int)) by (nonlinear_arith)
                        requires
                            0 <= base <= msg.gas_fee_cap,
                            0 <= gas_used <= msg.gas_limit,
                    ;
                    assert((base as int) * (gas_used as int) + (prem as int) * (
                    msg.gas_limit as int) <= (msg.gas_limit as int) * (msg.gas_fee_cap as int))
                        by (nonlinear_arith)
                        requires
                            0 <= base,
                            0 <= prem,
                            base + prem <= msg.gas_fee_cap,
                            0 <= gas_used <= msg.gas_limit,
                    ;
                }
                let burn = base * gas_used as u128;
                let tip = prem * msg.gas_limit as u128;
                let refund = upfront - burn - tip;
                self.credit(sender, refund);
                self.credit(BURNT_FUNDS_ACTOR_ID, burn);
                self.credit(REWARD_ACTOR_ID, tip);
                let SendRet { code, ret: return_data, backtrace, fatal: _ } = ret;
                ApplyRet {
                    msg_receipt: Receipt { exit_code: code, return_data, gas_used },
                    backtrace,
                    penalty: 0,
                    miner_tip: tip,
                }
            },
        }
    }

    /// Run one top-level invocation through a call manager session over
    /// this executor's machine.
    fn run_send(
        &mut self,
        gas_limit: u64,
        from: ActorID,
        to: Address,
        method: u64,
        value: TokenAmount,
    ) -> (r: (SendRet, u64))
        requires
            old(self).wf(),
        ensures
            final(self).wf(),
            final(self).spec_machine().modules() == old(self).spec_machine().modules(),
            final(self).spec_machine().spec_config() == old(self).spec_machine().spec_config(),
            final(self).spec_machine().spec_context() == old(self).spec_machine().spec_context(),
            final(self).spec_machine().tree_saved() == old(self).spec_machine().tree_saved(),
            ({
                let o = spec_send(
                    Env {
                        modules: old(self).spec_machine().modules(),
                        prices: old(self).spec_machine().spec_context().spec_price_list(),
                        gas_limit,
                    },
                    old(self).spec_machine().tree(),
                    0,
                    from,
                    to,
                    method,
                    value,
                    old(self).spec_machine().spec_config().max_call_depth,
                );
                &&& final(self).spec_machine().tree() == o.tree
                &&& r.0.matches(o)
                &&& r.1 == o.gas_used
            }),
    {
        let config = self.machine.config();
        let context = *self.machine.context();
        let mut m = Machine::new(config, context);
        core::mem::swap(&mut self.machine, &mut m);
        let mut cm = CallManager::new(m, gas_limit);
        let ret = cm.send(from, to, method, value, config.max_call_depth);
        let (gas_used, m2) = cm.finish();
        self.machine = m2;
        (ret, gas_used)
    }

    /// Credit `v` to existing actor `id`; the caller has established that
    /// the credited balance stays representable.
    fn credit(&mut self, id: ActorID, v: TokenAmount)
        requires
            old(self).wf(),
            old(self).spec_machine().tree().has_actor(id),
            sum_balances(old(self).spec_machine().tree().actors) + v <= u128::MAX,
        ensures
            final(self).wf(),
            final(self).spec_machine().modules() == old(self).spec_machine().modules(),
            final(self).spec_machine().spec_config() == old(self).spec_machine().spec_config(),
            final(self).spec_machine().spec_context() == old(self).spec_machine().spec_context(),
            final(self).spec_machine().tree_saved() == old(self).spec_machine().tree_saved(),
            final(self).spec_machine().tree() == credit_model(old(self).spec_machine().tree(), id, v),
            sum_balances(final(self).spec_machine().tree().actors) == sum_balances(
                old(self).spec_machine().tree().actors,
            ) + v,
            forall|j: ActorID| #[trigger] final(self).spec_machine().tree().has_actor(j)
                <==> old(self).spec_machine().tree().has_actor(j),
    {
        proof {
            lemma_sum_bound(self.machine.tree().actors, id as int);
            let ghost a0 = self.machine.tree().actor(id)->Some_0;
            lemma_with_actor_model(
                self.machine.tree(),
                id,
                ActorState {
                    code: a0.code,
                    state: a0.state,
                    balance: (a0.balance + v) as u128,
                    sequence: a0.sequence,
                },
            );
        }
        let a = match self.machine.get_actor(id) {
            None => {
                proof {
                    assert(false);
                }
                return ;
            },
            Some(a) => a,
        };
        let updated = ActorState {
            code: a.code,
            state: a.state,
            balance: a.balance + v,
            sequence: a.sequence,
        };
        match self.machine.set_actor(id, updated) {
            Ok(()) => (),
            Err(_) => {
                proof {
                    assert(false);
                }
            },
        }
    }
}

} // verus!
