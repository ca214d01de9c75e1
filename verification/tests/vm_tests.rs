use fvm::address::{Address, ActorID, BURNT_FUNDS_ACTOR_ID, REWARD_ACTOR_ID};
use fvm::code::{ActorModule, ActorOp};
use fvm::executor::{BLOCK_GAS_LIMIT, Executor};
use fvm::gas::{GasTracker, Operation, PriceList};
use fvm::machine::{
    ApplyKind, ApplyRet, Config, ExitCode, Machine, MachineContext, Message, SyscallError,
    code_text,
};
use fvm::state_tree::{ActorState, Cid, StateError, StateTree};

fn prices() -> PriceList {
    PriceList {
        syscall_base: 3,
        syscall_per_unit: 1,
        memory_per_byte: 1,
        compute_per_step: 2,
        storage_get_base: 4,
        storage_get_per_byte: 1,
        storage_put_base: 6,
        storage_put_per_byte: 2,
        send_base: 5,
    }
}

fn context() -> MachineContext {
    MachineContext::new(7, 1, Cid { hash: 0 }, prices(), 16)
}

fn machine() -> Machine {
    Machine::new(Config { max_call_depth: 64 }, context())
}

fn actor(balance: u128, sequence: u64, code: u64) -> ActorState {
    ActorState { code: Cid { hash: code }, state: Cid { hash: 0 }, balance, sequence, }
}

fn message(from: Address, to: Address, value: u128, method: u64, sequence: u64) -> Message {
    Message {
        from,
        to,
        sequence,
        value,
        method,
        params: vec![],
        gas_limit: 100,
        gas_fee_cap: 2,
        gas_premium: 1,
    }
}

#[test]
fn pricing_is_exact() {
    let pl = prices();
    assert_eq!(pl.cost(Operation::Syscall { units: 2 }), 5);
    assert_eq!(pl.cost(Operation::Memory { bytes: 10 }), 10);
    assert_eq!(pl.cost(Operation::Compute { steps: 4 }), 8);
    assert_eq!(pl.cost(Operation::StorageGet { bytes: 3 }), 7);
    assert_eq!(pl.cost(Operation::StoragePut { bytes: 3 }), 12);
    assert_eq!(pl.cost(Operation::Send), 5);
}

#[test]
fn pricing_saturates_instead_of_wrapping() {
    let mut pl = prices();
    pl.compute_per_step = u64::MAX;
    assert_eq!(pl.cost(Operation::Compute { steps: 3 }), u64::MAX);
}

#[test]
fn gas_charge_never_exceeds_limit() {
    let mut t = GasTracker::new(10);
    assert!(t.charge(6));
    assert_eq!(t.gas_used, 6);
    assert!(!t.charge(5));
    assert_eq!(t.gas_used, 10);
    assert!(!t.charge(1));
    assert_eq!(t.gas_used, 10);
}

#[test]
fn fresh_tree_resolves_reserved_actors() {
    let t = StateTree::new();
    assert_eq!(t.resolve(Address::Id(REWARD_ACTOR_ID)), Some(REWARD_ACTOR_ID));
    assert_eq!(t.resolve(Address::Id(BURNT_FUNDS_ACTOR_ID)), Some(BURNT_FUNDS_ACTOR_ID));
    assert!(t.get_actor(REWARD_ACTOR_ID).is_some());
    assert!(t.get_actor(BURNT_FUNDS_ACTOR_ID).is_some());
    assert!(t.get_actor(0).is_none());
}

#[test]
fn transfers_to_and_from_reserved_actors() {
    let mut t = StateTree::new();
    let a = t.create_actor(Address::Key(1), actor(1000, 0, 0)).unwrap();
    assert!(t.transfer(a, BURNT_FUNDS_ACTOR_ID, 300).is_ok());
    assert_eq!(t.get_actor(BURNT_FUNDS_ACTOR_ID).unwrap().balance, 300);
    assert!(t.transfer(BURNT_FUNDS_ACTOR_ID, REWARD_ACTOR_ID, 100).is_ok());
    assert_eq!(t.get_actor(REWARD_ACTOR_ID).unwrap().balance, 100);
    assert!(t.transfer(REWARD_ACTOR_ID, a, 100).is_ok());
    assert_eq!(t.get_actor(a).unwrap().balance, 800);
    assert_eq!(
        t.transfer(REWARD_ACTOR_ID, a, 1),
        Err(StateError::InsufficientFunds)
    );
}

#[test]
fn transfer_error_cases() {
    let mut t = StateTree::new();
    let a = t.create_actor(Address::Key(1), actor(10, 0, 0)).unwrap();
    assert_eq!(t.transfer(a, 55, 1), Err(StateError::ActorNotFound));
    assert_eq!(t.transfer(a, REWARD_ACTOR_ID, 11), Err(StateError::InsufficientFunds));
    // a zero-amount transfer between existing actors is a legal no-op
    assert!(t.transfer(a, REWARD_ACTOR_ID, 0).is_ok());
    assert_eq!(t.get_actor(a).unwrap().balance, 10);
    // a transfer to oneself leaves the balance alone
    assert!(t.transfer(a, a, 10).is_ok());
    assert_eq!(t.get_actor(a).unwrap().balance, 10);
}

#[test]
fn balance_overflow_is_rejected() {
    let mut t = StateTree::new();
    t.create_actor(Address::Key(1), actor(u128::MAX, 0, 0)).unwrap();
    assert_eq!(
        t.create_actor(Address::Key(2), actor(1, 0, 0)),
        Err(StateError::BalanceOverflow)
    );
    // replacing a state without growing the total is still fine
    let a = t.resolve(Address::Key(1)).unwrap();
    let mut st = t.get_actor(a).unwrap();
    st.sequence = 3;
    assert!(t.set_actor(a, st).is_ok());
    assert_eq!(t.get_actor(a).unwrap().sequence, 3);
}

#[test]
fn create_actor_rules() {
    let mut t = StateTree::new();
    let a = t.create_actor(Address::Key(9), actor(5, 0, 0)).unwrap();
    assert_eq!(a, 100);
    assert_eq!(t.resolve(Address::Key(9)), Some(a));
    assert_eq!(
        t.create_actor(Address::Key(9), actor(0, 0, 0)),
        Err(StateError::ActorAlreadyExists)
    );
    assert_eq!(
        t.create_actor(Address::Id(7), actor(0, 0, 0)),
        Err(StateError::IllegalAddress)
    );
    let b = t.create_actor(Address::Key(10), actor(0, 0, 0)).unwrap();
    assert_eq!(b, 101);
}

#[test]
fn snapshot_revert_restores_the_tree() {
    let mut t = StateTree::new();
    let a = t.create_actor(Address::Key(1), actor(50, 0, 0)).unwrap();
    let before = t.flush();
    let token = t.snapshot();
    t.transfer(a, REWARD_ACTOR_ID, 20).unwrap();
    assert_eq!(t.get_actor(a).unwrap().balance, 30);
    t.revert(token);
    assert_eq!(t.get_actor(a).unwrap().balance, 50);
    assert_eq!(t.flush(), before);
}

#[test]
fn revert_twice_equals_revert_once() {
    let mut t = StateTree::new();
    let a = t.create_actor(Address::Key(1), actor(50, 0, 0)).unwrap();
    let token = t.snapshot();
    t.transfer(a, REWARD_ACTOR_ID, 20).unwrap();
    t.revert(token);
    let once = t.flush();
    t.revert(token);
    let twice = t.flush();
    assert_eq!(once, twice);
    assert_eq!(t.get_actor(a).unwrap().balance, 50);
}

#[test]
fn flush_is_deterministic_and_content_sensitive() {
    let mut t1 = StateTree::new();
    let mut t2 = StateTree::new();
    t1.create_actor(Address::Key(1), actor(50, 0, 3)).unwrap();
    t2.create_actor(Address::Key(1), actor(50, 0, 3)).unwrap();
    assert_eq!(t1.flush(), t2.flush());
    t2.transfer(100, REWARD_ACTOR_ID, 1).unwrap();
    assert_ne!(t1.flush(), t2.flush());
}

#[test]
fn prevalidation_fail_shape() {
    let r = ApplyRet::prevalidation_fail(
        SyscallError(String::from("sender state invalid"), ExitCode::SysSenderStateInvalid),
        77,
    );
    assert_eq!(r.msg_receipt.exit_code, ExitCode::SysSenderStateInvalid);
    assert_eq!(r.msg_receipt.gas_used, 0);
    assert!(r.msg_receipt.return_data.is_empty());
    assert_eq!(r.backtrace.len(), 1);
    assert_eq!(r.backtrace[0].source, 0);
    assert_eq!(r.penalty, 77);
    assert_eq!(r.miner_tip, 0);
}

#[test]
fn code_text_is_stable() {
    assert_eq!(code_text(&ExitCode::SysOutOfGas), "out of gas");
    assert_eq!(code_text(&ExitCode::Success), "ok");
}

fn funded_sender(m: &mut Machine, key: u64, balance: u128) -> ActorID {
    m.create_actor(Address::Key(key), actor(balance, 0, 0)).unwrap()
}

#[test]
fn sequence_mismatch_fails_prevalidation_without_mutation() {
    let mut m = machine();
    let s = funded_sender(&mut m, 1, 10_000);
    let root = m.state_tree().flush();
    let mut ex = Executor::new(m);
    let msg = message(Address::Key(1), Address::Id(BURNT_FUNDS_ACTOR_ID), 10, 0, 5);
    let r = ex.execute_message(msg, ApplyKind::Explicit);
    assert_eq!(r.msg_receipt.exit_code, ExitCode::SysSenderStateInvalid);
    assert_eq!(r.msg_receipt.gas_used, 0);
    assert_eq!(r.backtrace.len(), 1);
    // penalty: base_fee (1) * gas_limit (100)
    assert_eq!(r.penalty, 100);
    let m = ex.into_machine();
    assert_eq!(m.state_tree().flush(), root);
    assert_eq!(m.get_actor(s).unwrap().balance, 10_000);
    assert_eq!(m.get_actor(s).unwrap().sequence, 0);
}

#[test]
fn missing_sender_fails_prevalidation() {
    let m = machine();
    let root = m.state_tree().flush();
    let mut ex = Executor::new(m);
    let msg = message(Address::Key(42), Address::Id(REWARD_ACTOR_ID), 0, 0, 0);
    let r = ex.execute_message(msg, ApplyKind::Explicit);
    assert_eq!(r.msg_receipt.exit_code, ExitCode::SysSenderInvalid);
    assert_eq!(r.msg_receipt.gas_used, 0);
    assert_eq!(ex.into_machine().state_tree().flush(), root);
}

#[test]
fn insufficient_funds_fail_prevalidation() {
    let mut m = machine();
    // needs gas_limit * fee_cap + value = 100 * 2 + 10 = 210
    funded_sender(&mut m, 1, 209);
    let root = m.state_tree().flush();
    let mut ex = Executor::new(m);
    let msg = message(Address::Key(1), Address::Id(REWARD_ACTOR_ID), 10, 0, 0);
    let r = ex.execute_message(msg, ApplyKind::Explicit);
    assert_eq!(r.msg_receipt.exit_code, ExitCode::SysSenderStateInvalid);
    assert_eq!(r.msg_receipt.gas_used, 0);
    assert_eq!(ex.into_machine().state_tree().flush(), root);
}

#[test]
fn gas_limit_over_chain_bound_fails_prevalidation() {
    let mut m = machine();
    funded_sender(&mut m, 1, u128::MAX / 4);
    let mut ex = Executor::new(m);
    let mut msg = message(Address::Key(1), Address::Id(REWARD_ACTOR_ID), 0, 0, 0);
    msg.gas_limit = BLOCK_GAS_LIMIT + 1;
    let r = ex.execute_message(msg, ApplyKind::Explicit);
    assert_eq!(r.msg_receipt.exit_code, ExitCode::SysSenderStateInvalid);
    assert_eq!(r.msg_receipt.gas_used, 0);
    assert_eq!(r.penalty, (BLOCK_GAS_LIMIT as u128) + 1);
}

#[test]
fn bare_transfer_succeeds_and_settles_fees() {
    let mut m = machine();
    let s = funded_sender(&mut m, 1, 10_000);
    let mut ex = Executor::new(m);
    let msg = message(Address::Key(1), Address::Id(REWARD_ACTOR_ID), 40, 0, 0);
    let r = ex.execute_message(msg, ApplyKind::Explicit);
    assert_eq!(r.msg_receipt.exit_code, ExitCode::Success);
    // only the fixed send cost is charged for a bare transfer
    assert_eq!(r.msg_receipt.gas_used, 5);
    assert!(r.backtrace.is_empty());
    assert_eq!(r.penalty, 0);
    // tip: premium (1) * gas_limit (100)
    assert_eq!(r.miner_tip, 100);
    let m = ex.into_machine();
    // sender: -value (40), -burn (base 1 * gas 5), -tip (100); sequence bumped
    let st = m.get_actor(s).unwrap();
    assert_eq!(st.balance, 10_000 - 40 - 5 - 100);
    assert_eq!(st.sequence, 1);
    assert_eq!(m.get_actor(BURNT_FUNDS_ACTOR_ID).unwrap().balance, 5);
    // reward actor got the transferred value and the tip
    assert_eq!(m.get_actor(REWARD_ACTOR_ID).unwrap().balance, 140);
}

fn install(m: &mut Machine, code: u64, ops: Vec<ActorOp>, ret: Vec<u8>) {
    m.install_module(Cid { hash: code }, ActorModule { ops, ret });
}

#[test]
fn abort_reverts_state_but_keeps_gas() {
    let mut m = machine();
    let s = funded_sender(&mut m, 1, 10_000);
    let callee = m
        .create_actor(Address::Key(2), actor(0, 0, 9))
        .unwrap();
    install(&mut m, 9, vec![ActorOp::Compute { steps: 1 }, ActorOp::Abort { code: 42 }], vec![]);
    let mut ex = Executor::new(m);
    let msg = message(Address::Key(1), Address::Key(2), 40, 3, 0);
    let r = ex.execute_message(msg, ApplyKind::Explicit);
    assert_eq!(r.msg_receipt.exit_code, ExitCode::ActorAbort(42));
    // send (5) + one compute step (2)
    assert_eq!(r.msg_receipt.gas_used, 7);
    assert_eq!(r.backtrace.len(), 1);
    assert_eq!(r.backtrace[0].source, callee);
    assert_eq!(r.backtrace[0].code, ExitCode::ActorAbort(42));
    let m = ex.into_machine();
    // the value transfer was rolled back with the frame
    assert_eq!(m.get_actor(callee).unwrap().balance, 0);
    // the sender still paid gas: -burn (1 * 7) - tip (100)
    assert_eq!(m.get_actor(s).unwrap().balance, 10_000 - 7 - 100);
}

#[test]
fn out_of_gas_is_fatal_and_consumes_the_budget() {
    let mut m = machine();
    funded_sender(&mut m, 1, 100_000);
    m.create_actor(Address::Key(2), actor(0, 0, 9)).unwrap();
    // costs 2 * 60 = 120 > gas limit 100
    install(&mut m, 9, vec![ActorOp::Compute { steps: 60 }], vec![]);
    let mut ex = Executor::new(m);
    let msg = message(Address::Key(1), Address::Key(2), 0, 3, 0);
    let r = ex.execute_message(msg, ApplyKind::Explicit);
    assert_eq!(r.msg_receipt.exit_code, ExitCode::SysOutOfGas);
    assert_eq!(r.msg_receipt.gas_used, 100);
    assert!(!r.backtrace.is_empty());
    assert_eq!(r.backtrace[0].source, 0);
}

#[test]
fn missing_recipient_and_missing_code() {
    let mut m = machine();
    let s = funded_sender(&mut m, 1, 10_000);
    let mut ex = Executor::new(m);
    let r = ex.execute_message(
        message(Address::Key(1), Address::Key(77), 0, 0, 0),
        ApplyKind::Explicit,
    );
    assert_eq!(r.msg_receipt.exit_code, ExitCode::SysActorNotFound);
    let mut m = ex.into_machine();
    assert_eq!(m.get_actor(s).unwrap().sequence, 1);
    // recipient exists but its code hash has no registered module
    m.create_actor(Address::Key(2), actor(0, 0, 9)).unwrap();
    let mut ex = Executor::new(m);
    let r = ex.execute_message(
        message(Address::Key(1), Address::Key(2), 0, 3, 1),
        ApplyKind::Explicit,
    );
    assert_eq!(r.msg_receipt.exit_code, ExitCode::SysActorNotFound);
}

#[test]
fn three_level_backtrace_is_innermost_first() {
    let mut m = machine();
    funded_sender(&mut m, 1, 100_000);
    let a = m.create_actor(Address::Key(2), actor(0, 0, 11)).unwrap();
    let b = m.create_actor(Address::Key(3), actor(0, 0, 12)).unwrap();
    let c = m.create_actor(Address::Key(4), actor(0, 0, 13)).unwrap();
    install(
        &mut m,
        11,
        vec![ActorOp::Send { to: Address::Key(3), method: 3, value: 0, catch: false }],
        vec![],
    );
    install(
        &mut m,
        12,
        vec![ActorOp::Send { to: Address::Key(4), method: 3, value: 0, catch: false }],
        vec![],
    );
    install(&mut m, 13, vec![ActorOp::Abort { code: 7 }], vec![]);
    let mut ex = Executor::new(m);
    let r = ex.execute_message(
        message(Address::Key(1), Address::Key(2), 0, 3, 0),
        ApplyKind::Explicit,
    );
    assert_eq!(r.msg_receipt.exit_code, ExitCode::ActorAbort(7));
    assert_eq!(r.backtrace.len(), 3);
    assert_eq!(r.backtrace[0].source, c);
    assert_eq!(r.backtrace[0].code, ExitCode::ActorAbort(7));
    assert_eq!(r.backtrace[1].source, b);
    assert_eq!(r.backtrace[1].code, ExitCode::ActorAbort(7));
    assert_eq!(r.backtrace[2].source, a);
    assert_eq!(r.backtrace[2].code, ExitCode::ActorAbort(7));
}

#[test]
fn caught_failure_leaves_no_trace_and_reverts_only_the_subtree() {
    let mut m = machine();
    funded_sender(&mut m, 1, 100_000);
    m.create_actor(Address::Key(2), actor(0, 0, 11)).unwrap();
    m.create_actor(Address::Key(3), actor(0, 0, 12)).unwrap();
    install(
        &mut m,
        11,
        vec![
            ActorOp::Compute { steps: 1 },
            ActorOp::Send { to: Address::Key(3), method: 3, value: 0, catch: true },
            ActorOp::Compute { steps: 1 },
        ],
        vec![1, 2, 3],
    );
    install(&mut m, 12, vec![ActorOp::Abort { code: 9 }], vec![]);
    let mut ex = Executor::new(m);
    let r = ex.execute_message(
        message(Address::Key(1), Address::Key(2), 0, 3, 0),
        ApplyKind::Explicit,
    );
    assert_eq!(r.msg_receipt.exit_code, ExitCode::Success);
    assert!(r.backtrace.is_empty());
    assert_eq!(r.msg_receipt.return_data, vec![1, 2, 3]);
    // send (5) + compute (2) + nested send (5) + compute (2)
    assert_eq!(r.msg_receipt.gas_used, 14);
}

#[test]
fn depth_limit_yields_limit_exceeded() {
    let mut m = Machine::new(Config { max_call_depth: 1 }, context());
    funded_sender(&mut m, 1, 100_000);
    let a = m.create_actor(Address::Key(2), actor(0, 0, 11)).unwrap();
    m.create_actor(Address::Key(3), actor(0, 0, 12)).unwrap();
    install(
        &mut m,
        11,
        vec![ActorOp::Send { to: Address::Key(3), method: 3, value: 0, catch: false }],
        vec![],
    );
    install(&mut m, 12, vec![], vec![]);
    let mut ex = Executor::new(m);
    let r = ex.execute_message(
        message(Address::Key(1), Address::Key(2), 0, 3, 0),
        ApplyKind::Explicit,
    );
    assert_eq!(r.msg_receipt.exit_code, ExitCode::SysLimitExceeded);
    assert_eq!(r.backtrace.len(), 2);
    assert_eq!(r.backtrace[0].source, 0);
    assert_eq!(r.backtrace[1].source, a);
}

#[test]
fn implicit_messages_skip_validation_and_fees() {
    let mut m = machine();
    let s = funded_sender(&mut m, 1, 1_000);
    let mut ex = Executor::new(m);
    // wrong sequence and nowhere near enough for gas prepayment: implicit
    // messages do not care
    let mut msg = message(Address::Key(1), Address::Id(REWARD_ACTOR_ID), 30, 0, 99);
    msg.gas_fee_cap = u128::MAX / 2;
    let r = ex.execute_message(msg, ApplyKind::Implicit);
    assert_eq!(r.msg_receipt.exit_code, ExitCode::Success);
    assert_eq!(r.msg_receipt.gas_used, 5);
    assert_eq!(r.penalty, 0);
    assert_eq!(r.miner_tip, 0);
    let m = ex.into_machine();
    // only the transferred value moved; no fees, no sequence bump
    assert_eq!(m.get_actor(s).unwrap().balance, 970);
    assert_eq!(m.get_actor(s).unwrap().sequence, 0);
    assert_eq!(m.get_actor(REWARD_ACTOR_ID).unwrap().balance, 30);
}

#[test]
fn nested_transfer_without_funds_fails_with_insufficient_funds() {
    let mut m = machine();
    funded_sender(&mut m, 1, 100_000);
    // the callee actor holds nothing, yet its script tries to pay out
    m.create_actor(Address::Key(2), actor(0, 0, 11)).unwrap();
    install(
        &mut m,
        11,
        vec![ActorOp::Send { to: Address::Id(REWARD_ACTOR_ID), method: 0, value: 50, catch: false }],
        vec![],
    );
    let mut ex = Executor::new(m);
    let r = ex.execute_message(
        message(Address::Key(1), Address::Key(2), 0, 3, 0),
        ApplyKind::Explicit,
    );
    assert_eq!(r.msg_receipt.exit_code, ExitCode::SysInsufficientFunds);
    assert_eq!(r.backtrace.len(), 2);
    assert_eq!(r.backtrace[0].source, 0);
    let m = ex.into_machine();
    // the rolled-back 50 never arrived; only the miner tip (1 * 100) did
    assert_eq!(m.get_actor(REWARD_ACTOR_ID).unwrap().balance, 100);
}

fn run_once() -> (ApplyRet, Cid) {
    let mut m = machine();
    funded_sender(&mut m, 1, 100_000);
    m.create_actor(Address::Key(2), actor(0, 0, 9)).unwrap();
    install(
        &mut m,
        9,
        vec![
            ActorOp::Compute { steps: 2 },
            ActorOp::Memory { bytes: 3 },
            ActorOp::Syscall { units: 1 },
            ActorOp::StorageGet { bytes: 2 },
            ActorOp::StoragePut { bytes: 1 },
        ],
        vec![9, 9],
    );
    let mut ex = Executor::new(m);
    let r = ex.execute_message(
        message(Address::Key(1), Address::Key(2), 25, 3, 0),
        ApplyKind::Explicit,
    );
    let root = ex.into_machine().state_tree().flush();
    (r, root)
}

#[test]
fn repeated_execution_is_byte_identical() {
    let (r1, root1) = run_once();
    let (r2, root2) = run_once();
    assert_eq!(r1.msg_receipt.exit_code, r2.msg_receipt.exit_code);
    assert_eq!(r1.msg_receipt.return_data, r2.msg_receipt.return_data);
    assert_eq!(r1.msg_receipt.gas_used, r2.msg_receipt.gas_used);
    assert_eq!(r1.backtrace.len(), r2.backtrace.len());
    assert_eq!(r1.penalty, r2.penalty);
    assert_eq!(r1.miner_tip, r2.miner_tip);
    assert_eq!(root1, root2);
}

#[test]
fn load_module_finds_installed_code() {
    let mut m = machine();
    install(&mut m, 9, vec![ActorOp::Compute { steps: 1 }], vec![4]);
    let module = m.load_module(&Cid { hash: 9 }).unwrap();
    assert_eq!(module.ops.len(), 1);
    assert_eq!(module.ret, vec![4]);
    assert!(m.load_module(&Cid { hash: 8 }).is_none());
}

#[test]
fn machine_context_getters() {
    let c = context();
    assert_eq!(c.epoch(), 7);
    assert_eq!(c.base_fee(), 1);
    assert_eq!(c.state_root(), Cid { hash: 0 });
    assert_eq!(c.network_version(), 16);
    assert_eq!(c.price_list().send_base, 5);
}
