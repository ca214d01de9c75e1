use vstd::prelude::*;

use crate::address::{ActorID, Address, BURNT_FUNDS_ACTOR_ID, REWARD_ACTOR_ID};
use crate::econ::TokenAmount;

verus! {

/// A content hash: the address of a block of bytes in the content-addressed
/// store, here carried as its digest value.
#[derive(Clone, Copy, PartialEq, Eq, Structural, Debug)]
pub struct Cid {
    pub hash: u64,
}

/// The state of one actor: code reference, per-actor state root, balance and
/// call sequence number. Owned exclusively by the state tree.
#[derive(Clone, Copy, PartialEq, Eq, Structural, Debug)]
pub struct ActorState {
    /// Content hash of the actor's code.
    pub code: Cid,
    /// Content hash of the actor's own state.
    pub state: Cid,
    /// Balance; a token amount is never negative.
    pub balance: TokenAmount,
    /// Sequence number; only ever increases.
    pub sequence: u64,
}

/// Failures of state-tree and machine primitives.
#[derive(Clone, Copy, PartialEq, Eq, Structural, Debug)]
pub enum StateError {
    /// `create_actor` was given an identifier address; identifiers are
    /// assigned by the tree, never claimed.
    IllegalAddress,
    /// The address already resolves to an actor.
    ActorAlreadyExists,
    /// An actor identifier does not resolve.
    ActorNotFound,
    /// A debit exceeds the payer's balance.
    InsufficientFunds,
    /// Crediting would push the sum of all balances past the largest
    /// representable token amount.
    BalanceOverflow,
}

/// Mathematical model of the state tree: the actor slots (the slot index is
/// the actor identifier; the next identifier to assign is the length) and
/// the bindings from key addresses to identifiers.
pub ghost struct TreeModel {
    pub actors: Seq<Option<ActorState>>,
    pub bindings: Seq<(u64, ActorID)>,
}

/// Balance held in one actor slot.
pub open spec fn slot_balance(slot: Option<ActorState>) -> int {
    match slot {
        Some(a) => a.balance as int,
        None => 0,
    }
}

/// Sum of all balances in the tree.
pub open spec fn sum_balances(s: Seq<Option<ActorState>>) -> int
    decreases s.len(),
{
    if s.len() == 0 {
        0
    } else {
        sum_balances(s.drop_last()) + slot_balance(s.last())
    }
}

/// First binding of key `k`, scanning from index `i`.
pub open spec fn find_binding(bs: Seq<(u64, ActorID)>, k: u64, i: int) -> Option<ActorID>
    decreases bs.len() - i,
{
    if i < 0 || i >= bs.len() {
        None
    } else if bs[i].0 == k {
        Some(bs[i].1)
    } else {
        find_binding(bs, k, i + 1)
    }
}

impl TreeModel {
    /// The slot of actor `id`, if the identifier has been assigned and the
    /// slot is occupied.
    pub open spec fn actor(self, id: ActorID) -> Option<ActorState> {
        if id < self.actors.len() && self.actors[id as int] is Some {
            self.actors[id as int]
        } else {
            None
        }
    }

    /// Whether `id` names an existing actor.
    pub open spec fn has_actor(self, id: ActorID) -> bool {
        self.actor(id) is Some
    }

    /// The identifier `addr` resolves to, if any: an identifier address
    /// resolves to its own actor, a key address through the bindings.
    pub open spec fn resolve(self, addr: Address) -> Option<ActorID> {
        match addr {
            Address::Id(id) => if self.has_actor(id) {
                Some(id)
            } else {
                None
            },
            Address::Key(k) => find_binding(self.bindings, k, 0),
        }
    }

    /// Every binding points at an existing actor.
    pub open spec fn bindings_valid(self) -> bool {
        forall|i: int|
            0 <= i < self.bindings.len() ==> self.actor(#[trigger] self.bindings[i].1) is Some
    }

    /// The tree after replacing the state of existing actor `id`.
    pub open spec fn with_actor(self, id: ActorID, a: ActorState) -> TreeModel {
        TreeModel { actors: self.actors.update(id as int, Some(a)), bindings: self.bindings }
    }

    /// The tree after moving `value` from `from` to `to` (both assumed to
    /// exist, `from` assumed to cover `value`). Debit first, then credit, so
    /// a transfer to oneself is a no-op.
    pub open spec fn transfer_model(self, from: ActorID, to: ActorID, value: TokenAmount) -> TreeModel {
        let fa = self.actor(from)->Some_0;
        let m1 = self.with_actor(
            from,
            ActorState {
                code: fa.code,
                state: fa.state,
                balance: (fa.balance - value) as u128,
                sequence: fa.sequence,
            },
        );
        let ta = m1.actor(to)->Some_0;
        m1.with_actor(
            to,
            ActorState {
                code: ta.code,
                state: ta.state,
                balance: (ta.balance + value) as u128,
                sequence: ta.sequence,
            },
        )
    }

    /// The tree after creating a new actor bound to key `k`: the next unused
    /// identifier is assigned.
    pub open spec fn create_model(self, k: u64, a: ActorState) -> TreeModel {
        TreeModel {
            actors: self.actors.push(Some(a)),
            bindings: self.bindings.push((k, self.actors.len() as ActorID)),
        }
    }
}

/// One version of the tree's contents: the data a snapshot preserves.
struct TreeData {
    actors: Vec<Option<ActorState>>,
    bindings: Vec<(u64, ActorID)>,
    /// Cached sum of all balances; bounds every credit.
    total: TokenAmount,
}

impl View for TreeData {
    type V = TreeModel;

    closed spec fn view(&self) -> TreeModel {
        TreeModel { actors: self.actors@, bindings: self.bindings@ }
    }
}

impl TreeData {
    spec fn wf(self) -> bool {
        &&& sum_balances(self.actors@) == self.total as int
        &&& self@.bindings_valid()
        &&& self.actors@.len() <= u64::MAX
    }
}

/// Number of identifiers reserved for distinguished protocol actors; the
/// first assignable ordinary identifier.
pub const FIRST_ASSIGNABLE_ID: u64 = 100;

/// The actor slots of a freshly initialized tree: empty but for the reserved
/// reward and burnt-funds actors, which every valid tree contains.
pub open spec fn init_slot(i: int) -> Option<ActorState> {
    if i == REWARD_ACTOR_ID || i == BURNT_FUNDS_ACTOR_ID {
        Some(ActorState { code: Cid { hash: 0 }, state: Cid { hash: 0 }, balance: 0, sequence: 0 })
    } else {
        None
    }
}

/// Model of a freshly initialized state tree.
pub open spec fn init_model() -> TreeModel {
    TreeModel {
        actors: Seq::new(FIRST_ASSIGNABLE_ID as nat, |i: int| init_slot(i)),
        bindings: Seq::empty(),
    }
}

/// The tree and its snapshot stack after reverting to token `t`: all
/// mutations since snapshot `t` are discarded; a token at the top of the
/// stack (already current) leaves everything unchanged.
pub open spec fn spec_revert(cur: TreeModel, saved: Seq<TreeModel>, t: int) -> (TreeModel, Seq<
    TreeModel,
>) {
    if t < saved.len() {
        (saved[t], saved.take(t))
    } else {
        (cur, saved)
    }
}

/// Content-addressed mapping from actor identifier to actor state, with
/// snapshot/revert. This interface is the sole place where the state can
/// change, which is what makes atomic commit and revert possible.
pub struct StateTree {
    cur: TreeData,
    snapshots: Vec<TreeData>,
}

impl View for StateTree {
    type V = TreeModel;

    closed spec fn view(&self) -> TreeModel {
        self.cur@
    }
}

proof fn lemma_sum_update(s: Seq<Option<ActorState>>, i: int, x: Option<ActorState>)
    requires
        0 <= i < s.len(),
    ensures
        sum_balances(s.update(i, x)) == sum_balances(s) - slot_balance(s[i]) + slot_balance(x),
    decreases s.len(),
{
    if i == s.len() - 1 {
        assert(s.update(i, x).drop_last() =~= s.drop_last());
    } else {
        lemma_sum_update(s.drop_last(), i, x);
        assert(s.update(i, x).drop_last() =~= s.drop_last().update(i, x));
    }
}

pub proof fn lemma_sum_bound(s: Seq<Option<ActorState>>, i: int)
    requires
        0 <= i < s.len(),
    ensures
        slot_balance(s[i]) <= sum_balances(s),
        sum_balances(s) >= 0,
    decreases s.len(),
{
    if s.len() > 0 {
        if i == s.len() - 1 {
            lemma_sum_nonneg(s.drop_last());
        } else {
            lemma_sum_bound(s.drop_last(), i);
        }
    }
}

proof fn lemma_sum_nonneg(s: Seq<Option<ActorState>>)
    ensures
        sum_balances(s) >= 0,
    decreases s.len(),
{
    if s.len() > 0 {
        lemma_sum_nonneg(s.drop_last());
    }
}

impl StateTree {
    /// Well-formedness: the cached balance total is exact, bindings point at
    /// existing actors, and every saved snapshot is itself well formed.
    pub closed spec fn wf(self) -> bool {
        &&& self.cur.wf()
        &&& forall|i: int| 0 <= i < self.snapshots@.len() ==> (#[trigger] self.snapshots@[i]).wf()
    }

    /// The stack of snapshot versions, oldest first.
    pub closed spec fn saved(self) -> Seq<TreeModel> {
        self.snapshots@.map_values(|d: TreeData| d@)
    }

    /// A fresh tree: the reserved reward and burnt-funds actors exist, all
    /// other reserved identifiers are vacant, no snapshots are outstanding.
    pub fn new() -> (t: StateTree)
        ensures
            t.wf(),
            t@ == init_model(),
            t.saved() == Seq::<TreeModel>::empty(),
    {
        let mut actors: Vec<Option<ActorState>> = Vec::new();
        let reserved = ActorState {
            code: Cid { hash: 0 },
            state: Cid { hash: 0 },
            balance: 0,
            sequence: 0,
        };
        let mut i: u64 = 0;
        while i < FIRST_ASSIGNABLE_ID
            invariant
                i <= FIRST_ASSIGNABLE_ID,
                actors@.len() == i,
                forall|j: int| 0 <= j < i ==> actors@[j] == init_slot(j),
                sum_balances(actors@) == 0,
                reserved == (ActorState {
                    code: Cid { hash: 0 },
                    state: Cid { hash: 0 },
                    balance: 0,
                    sequence: 0,
                }),
            decreases FIRST_ASSIGNABLE_ID - i,
        {
            let ghost prev = actors@;
            if i == REWARD_ACTOR_ID || i == BURNT_FUNDS_ACTOR_ID {
                actors.push(Some(reserved));
            } else {
                actors.push(None);
            }
            proof {
                assert(actors@.drop_last() =~= prev);
            }
            i = i + 1;
        }
        let t = StateTree {
            cur: TreeData { actors, bindings: Vec::new(), total: 0 },
            snapshots: Vec::new(),
        };
        proof {
            assert(t@.actors =~= init_model().actors);
            assert(t.saved() =~= Seq::<TreeModel>::empty());
        }
        t
    }

    /// Read actor `id`.
    pub fn get_actor(&self, id: ActorID) -> (r: Option<ActorState>)
        ensures
            r == self@.actor(id),
    {
        if id < self.cur.actors.len() as u64 {
            self.cur.actors[id as usize]
        } else {
            None
        }
    }

    /// Resolve an address to the actor identifier it names, if any.
    pub fn resolve(&self, addr: Address) -> (r: Option<ActorID>)
        ensures
            r == self@.resolve(addr),
    {
        match addr {
            Address::Id(id) => {
                if self.get_actor(id).is_some() {
                    Some(id)
                } else {
                    None
                }
            },
            Address::Key(k) => {
                let mut i: usize = 0;
                while i < self.cur.bindings.len()
                    invariant
                        addr == Address::Key(k),
                        0 <= i <= self.cur.bindings@.len(),
                        find_binding(self.cur.bindings@, k, 0) == find_binding(
                            self.cur.bindings@,
                            k,
                            i as int,
                        ),
                    decreases self.cur.bindings@.len() - i,
                {
                    if self.cur.bindings[i].0 == k {
                        proof {
                            assert(find_binding(self.cur.bindings@, k, i as int)
                                == Some(self.cur.bindings@[i as int].1));
                        }
                        return Some(self.cur.bindings[i].1);
                    }
                    i = i + 1;
                }
                None
            },
        }
    }

    /// Replace the state of existing actor `id`. Fails if `id` does not
    /// resolve, or if raising the balance would push the sum of all balances
    /// past the largest representable amount (a machine limit).
    pub fn set_actor(&mut self, id: ActorID, a: ActorState) -> (r: Result<(), StateError>)
        requires
            old(self).wf(),
        ensures
            final(self).wf(),
            final(self).saved() == old(self).saved(),
            match r {
                Ok(()) => old(self)@.has_actor(id) && final(self)@ == old(self)@.with_actor(id, a)
                    && sum_balances(old(self)@.actors) - slot_balance(old(self)@.actor(id))
                    + a.balance as int <= u128::MAX,
                Err(StateError::ActorNotFound) => !old(self)@.has_actor(id) && *final(self) == *old(self),
                Err(StateError::BalanceOverflow) => old(self)@.has_actor(id) && *final(self) == *old(self) && sum_balances(old(self)@.actors) - slot_balance(old(self)@.actor(id))
                    + a.balance as int > u128::MAX,
                Err(_) => false,
            },
    {
        if id >= self.cur.actors.len() as u64 {
            return Err(StateError::ActorNotFound);
        }
        let slot = self.cur.actors[id as usize];
        match slot {
            None => Err(StateError::ActorNotFound),
            Some(prev) => {
                proof {
                    lemma_sum_bound(self.cur.actors@, id as int);
                }
                let remainder: u128 = self.cur.total - prev.balance;
                match remainder.checked_add(a.balance) {
                    None => Err(StateError::BalanceOverflow),
                    Some(new_total) => {
                        proof {
                            lemma_sum_update(self.cur.actors@, id as int, Some(a));
                        }
                        self.cur.actors[id as usize] = Some(a);
                        self.cur.total = new_total;
                        proof {
                            assert forall|i: int| 0 <= i < self@.bindings.len() implies self@.actor(
                                #[trigger] self@.bindings[i].1,
                            ) is Some by {
                                assert(old(self)@.actor(old(self)@.bindings[i].1) is Some);
                            }
                        }
                        Ok(())
                    },
                }
            },
        }
    }

    /// Create an actor: assign the next unused identifier and bind key
    /// address `addr` to it. Fails on an identifier address, on an address
    /// that already resolves, or when the new balance cannot be accommodated
    /// (machine limit on the sum of balances or on the identifier space).
    pub fn create_actor(&mut self, addr: Address, a: ActorState) -> (r: Result<
        ActorID,
        StateError,
    >)
        requires
            old(self).wf(),
        ensures
            final(self).wf(),
            final(self).saved() == old(self).saved(),
            match r {
                Ok(id) => {
                    &&& addr is Key
                    &&& old(self)@.resolve(addr) is None
                    &&& id == old(self)@.actors.len()
                    &&& final(self)@ == old(self)@.create_model(addr->Key_0, a)
                },
                Err(StateError::IllegalAddress) => addr is Id && *final(self) == *old(self),
                Err(StateError::ActorAlreadyExists) => addr is Key && old(self)@.resolve(
                    addr,
                ) is Some && *final(self) == *old(self),
                Err(StateError::BalanceOverflow) => *final(self) == *old(self) && (sum_balances(
                    old(self)@.actors,
                ) + a.balance as int > u128::MAX || old(self)@.actors.len() >= u64::MAX),
                Err(_) => false,
            },
    {
        let k = match addr {
            Address::Id(_) => {
                return Err(StateError::IllegalAddress);
            },
            Address::Key(k) => k,
        };
        if self.resolve(addr).is_some() {
            return Err(StateError::ActorAlreadyExists);
        }
        if self.cur.actors.len() as u64 >= u64::MAX {
            return Err(StateError::BalanceOverflow);
        }
        match self.cur.total.checked_add(a.balance) {
            None => Err(StateError::BalanceOverflow),
            Some(new_total) => {
                let ghost prev = self.cur.actors@;
                let id = self.cur.actors.len() as u64;
                self.cur.actors.push(Some(a));
                self.cur.bindings.push((k, id));
                self.cur.total = new_total;
                proof {
                    assert(self.cur.actors@.drop_last() =~= prev);
                    assert(self@ =~= old(self)@.create_model(k, a));
                }
                Ok(id)
            },
        }
    }

    /// Move `value` from `from` to `to`. Fails if either identifier does not
    /// resolve or `from` cannot cover `value`; a zero amount between
    /// existing actors is a legal no-op. On failure nothing changes.
    pub fn transfer(&mut self, from: ActorID, to: ActorID, value: TokenAmount) -> (r: Result<
        (),
        StateError,
    >)
        requires
            old(self).wf(),
        ensures
            final(self).wf(),
            final(self).saved() == old(self).saved(),
            match r {
                Ok(()) => {
                    &&& old(self)@.has_actor(from)
                    &&& old(self)@.has_actor(to)
                    &&& old(self)@.actor(from)->Some_0.balance >= value
                    &&& final(self)@ == old(self)@.transfer_model(from, to, value)
                },
                Err(StateError::ActorNotFound) => (!old(self)@.has_actor(from) || !old(
                    self,
                )@.has_actor(to)) && *final(self) == *old(self),
                Err(StateError::InsufficientFunds) => old(self)@.has_actor(from) && old(
                    self,
                )@.has_actor(to) && old(self)@.actor(from)->Some_0.balance < value && *final(self)
                    == *old(self),
                Err(_) => false,
            },
    {
        let fa = match self.get_actor(from) {
            None => {
                return Err(StateError::ActorNotFound);
            },
            Some(fa) => fa,
        };
        let ta = match self.get_actor(to) {
            None => {
                return Err(StateError::ActorNotFound);
            },
            Some(ta) => ta,
        };
        if fa.balance < value {
            return Err(StateError::InsufficientFunds);
        }
        let ghost pre = self.cur.actors@;
        let ghost pre_total = self.cur.total as int;
        proof {
            lemma_sum_bound(pre, from as int);
            assert(pre[from as int] == Some(fa));
            assert(fa.balance as int <= pre_total);
        }
        let debited = ActorState { code: fa.code, state: fa.state, balance: fa.balance - value, sequence: fa.sequence };
        // reading the length brings the vector-length bound into scope for
        // the index cast below
        let n = self.cur.actors.len();
        proof {
            lemma_sum_update(pre, from as int, Some(debited));
            assert(from < pre.len());
            assert((from as usize) as int == from as int);
        }
        self.cur.actors[from as usize] = Some(debited);
        self.cur.total = self.cur.total - value;
        proof {
            assert(self.cur.actors@ =~= pre.update(from as int, Some(debited)));
            assert(sum_balances(self.cur.actors@) == pre_total - value);
            assert(sum_balances(self.cur.actors@) == self.cur.total as int);
        }
        // After the debit the sum shrank by `value`, so the credit cannot
        // push it past where it started.
        let ta2 = match self.get_actor(to) {
            None => {
                proof {
                    assert(false);
                }
                return Err(StateError::ActorNotFound);
            },
            Some(ta2) => ta2,
        };
        let ghost mid = self.cur.actors@;
        proof {
            lemma_sum_bound(mid, to as int);
            assert(mid[to as int] == Some(ta2));
            assert(ta2.balance as int + value as int <= pre_total);
        }
        let credited = ActorState { code: ta2.code, state: ta2.state, balance: ta2.balance + value, sequence: ta2.sequence };
        let n2 = self.cur.actors.len();
        proof {
            lemma_sum_update(mid, to as int, Some(credited));
            assert(to < mid.len());
            assert((to as usize) as int == to as int);
        }
        self.cur.actors[to as usize] = Some(credited);
        self.cur.total = self.cur.total + value;
        proof {
            assert(self@ =~= old(self)@.transfer_model(from, to, value));
        }
        Ok(())
    }

    /// Take a snapshot: the returned token names the version to which
    /// `revert` can later return.
    pub fn snapshot(&mut self) -> (t: usize)
        requires
            old(self).wf(),
        ensures
            final(self).wf(),
            final(self)@ == old(self)@,
            final(self).saved() == old(self).saved().push(old(self)@),
            t == old(self).saved().len(),
    {
        let t = self.snapshots.len();
        let copy = clone_data(&self.cur);
        self.snapshots.push(copy);
        proof {
            assert(self.saved() =~= old(self).saved().push(old(self)@));
        }
        t
    }

    /// Discard the most recent snapshot, keeping all mutations made since it
    /// was taken: the commit half of snapshot/revert.
    pub fn discard(&mut self, t: usize)
        requires
            old(self).wf(),
            old(self).saved().len() == t + 1,
        ensures
            final(self).wf(),
            final(self)@ == old(self)@,
            final(self).saved() == old(self).saved().take(t as int),
    {
        self.snapshots.pop();
        proof {
            assert(self.saved() =~= old(self).saved().take(t as int));
        }
    }

    /// Discard all mutations made since snapshot `t` was taken, dropping
    /// every later snapshot. Idempotent: reverting to an already-current
    /// token changes nothing.
    pub fn revert(&mut self, t: usize)
        requires
            old(self).wf(),
            t <= old(self).saved().len(),
        ensures
            final(self).wf(),
            (final(self)@, final(self).saved()) == spec_revert(
                old(self)@,
                old(self).saved(),
                t as int,
            ),
    {
        if t < self.snapshots.len() {
            let restored = clone_data(&self.snapshots[t]);
            self.cur = restored;
            self.snapshots.truncate(t);
            proof {
                assert(self.saved() =~= old(self).saved().take(t as int));
            }
        }
    }

    /// Commit the tree to its content-addressed root hash: a pure function
    /// of the tree's contents, so two equal trees flush to the same root.
    pub fn flush(&self) -> (r: Cid)
        ensures
            r == spec_root(self@),
    {
        let la = #[verifier::truncate] (self.cur.actors.len() as u64);
        let lb = #[verifier::truncate] (self.cur.bindings.len() as u64);
        let mut acc = mix_exec(mix_exec(0xcbf29ce484222325, la), lb);
        let ghost acc0 = acc;
        let mut i: usize = 0;
        while i < self.cur.actors.len()
            invariant
                i <= self.cur.actors@.len(),
                digest_actors(self.cur.actors@, i as int, acc) == digest_actors(
                    self.cur.actors@,
                    0,
                    acc0,
                ),
            decreases self.cur.actors@.len() - i,
        {
            acc = slot_step_exec(acc, self.cur.actors[i]);
            i = i + 1;
        }
        let ghost acc1 = acc;
        let mut j: usize = 0;
        while j < self.cur.bindings.len()
            invariant
                j <= self.cur.bindings@.len(),
                digest_bindings(self.cur.bindings@, j as int, acc) == digest_bindings(
                    self.cur.bindings@,
                    0,
                    acc1,
                ),
                acc1 == digest_actors(self.cur.actors@, 0, acc0),
                acc0 == mix(
                    mix(0xcbf29ce484222325, self.cur.actors@.len() as u64),
                    self.cur.bindings@.len() as u64,
                ),
            decreases self.cur.bindings@.len() - j,
        {
            acc = mix_exec(mix_exec(acc, self.cur.bindings[j].0), self.cur.bindings[j].1);
            j = j + 1;
        }
        Cid { hash: acc }
    }

    /// The sum of all balances in the tree. It changes only by value
    /// injected at actor creation; transfers preserve it.
    pub fn total_balance(&self) -> (r: TokenAmount)
        requires
            self.wf(),
        ensures
            r as int == sum_balances(self@.actors),
    {
        self.cur.total
    }
}

/// A key binding found by scanning points at an existing actor whenever
/// the tree's bindings are valid.
proof fn lemma_find_binding_valid(m: TreeModel, k: u64, i: int)
    requires
        m.bindings_valid(),
        find_binding(m.bindings, k, i) is Some,
    ensures
        m.has_actor(find_binding(m.bindings, k, i)->Some_0),
    decreases m.bindings.len() - i,
{
    if 0 <= i < m.bindings.len() {
        if m.bindings[i].0 == k {
        } else {
            lemma_find_binding_valid(m, k, i + 1);
        }
    }
}

/// An address that resolves names an existing actor, whenever the tree's
/// bindings are valid.
pub proof fn lemma_resolve_has_actor(m: TreeModel, addr: Address)
    requires
        m.bindings_valid(),
        m.resolve(addr) is Some,
    ensures
        m.has_actor(m.resolve(addr)->Some_0),
{
    match addr {
        Address::Id(_) => {
        },
        Address::Key(k) => {
            lemma_find_binding_valid(m, k, 0);
        },
    }
}

/// What well-formedness guarantees of the tree's model: the bindings are
/// valid and the sum of all balances is representable.
pub proof fn lemma_wf_model(t: StateTree)
    requires
        t.wf(),
    ensures
        t@.bindings_valid(),
        sum_balances(t@.actors) <= u128::MAX,
{
}

/// In a well-formed tree every address that resolves names an existing
/// actor.
pub proof fn lemma_wf_resolve_has_actor(t: StateTree, addr: Address)
    requires
        t.wf(),
        t@.resolve(addr) is Some,
    ensures
        t@.has_actor(t@.resolve(addr)->Some_0),
{
    lemma_resolve_has_actor(t@, addr);
}

/// Replacing an existing actor's state changes the sum of balances by
/// exactly the balance difference, preserves which actors exist, touches no
/// other actor, and leaves the bindings alone.
pub proof fn lemma_with_actor_model(m: TreeModel, id: ActorID, a: ActorState)
    requires
        m.has_actor(id),
    ensures
        ({
            let r = m.with_actor(id, a);
            &&& sum_balances(r.actors) == sum_balances(m.actors) - m.actor(
                id,
            )->Some_0.balance as int + a.balance as int
            &&& forall|j: ActorID| #[trigger] r.has_actor(j) <==> m.has_actor(j)
            &&& r.actor(id) == Some(a)
            &&& forall|j: ActorID| j != id ==> #[trigger] r.actor(j) == m.actor(j)
            &&& r.bindings == m.bindings
        }),
{
    lemma_sum_update(m.actors, id as int, Some(a));
}

/// A transfer moves value without changing the sum of balances, which
/// actors exist, or the bindings.
pub proof fn lemma_transfer_model(m: TreeModel, from: ActorID, to: ActorID, v: TokenAmount)
    requires
        m.has_actor(from),
        m.has_actor(to),
        m.actor(from)->Some_0.balance >= v,
        sum_balances(m.actors) <= u128::MAX,
    ensures
        ({
            let r = m.transfer_model(from, to, v);
            &&& sum_balances(r.actors) == sum_balances(m.actors)
            &&& forall|j: ActorID| #[trigger] r.has_actor(j) <==> m.has_actor(j)
            &&& r.bindings == m.bindings
        }),
{
    let fa = m.actor(from)->Some_0;
    let debited = ActorState {
        code: fa.code,
        state: fa.state,
        balance: (fa.balance - v) as u128,
        sequence: fa.sequence,
    };
    lemma_sum_bound(m.actors, from as int);
    lemma_with_actor_model(m, from, debited);
    let m1 = m.with_actor(from, debited);
    lemma_sum_bound(m1.actors, to as int);
    let ta = m1.actor(to)->Some_0;
    let credited = ActorState {
        code: ta.code,
        state: ta.state,
        balance: (ta.balance + v) as u128,
        sequence: ta.sequence,
    };
    lemma_with_actor_model(m1, to, credited);
}

/// One step of the tree-commitment digest: a 64-bit multiply-and-add mix.
pub open spec fn mix(acc: u64, x: u64) -> u64 {
    acc.wrapping_mul(0x100000001b3).wrapping_add(x)
}

fn mix_exec(acc: u64, x: u64) -> (r: u64)
    ensures
        r == mix(acc, x),
{
    acc.wrapping_mul(0x100000001b3).wrapping_add(x)
}

/// Digest of one actor slot folded into the accumulator.
pub open spec fn slot_step(acc: u64, slot: Option<ActorState>) -> u64 {
    match slot {
        None => mix(acc, 0),
        Some(a) => mix(
            mix(
                mix(mix(mix(mix(acc, 1), a.code.hash), a.state.hash), a.balance as u64),
                (a.balance >> 64) as u64,
            ),
            a.sequence,
        ),
    }
}

fn slot_step_exec(acc: u64, slot: Option<ActorState>) -> (r: u64)
    ensures
        r == slot_step(acc, slot),
{
    match slot {
        None => mix_exec(acc, 0),
        Some(a) => {
            let lo = #[verifier::truncate] (a.balance as u64);
            let hi = #[verifier::truncate] ((a.balance >> 64) as u64);
            mix_exec(
                mix_exec(
                    mix_exec(mix_exec(mix_exec(mix_exec(acc, 1), a.code.hash), a.state.hash), lo),
                    hi,
                ),
                a.sequence,
            )
        },
    }
}

/// Digest of the actor slots from index `i`.
pub open spec fn digest_actors(s: Seq<Option<ActorState>>, i: int, acc: u64) -> u64
    decreases s.len() - i,
{
    if i < 0 || i >= s.len() {
        acc
    } else {
        digest_actors(s, i + 1, slot_step(acc, s[i]))
    }
}

/// Digest of the key bindings from index `i`.
pub open spec fn digest_bindings(bs: Seq<(u64, ActorID)>, i: int, acc: u64) -> u64
    decreases bs.len() - i,
{
    if i < 0 || i >= bs.len() {
        acc
    } else {
        digest_bindings(bs, i + 1, mix(mix(acc, bs[i].0), bs[i].1))
    }
}

/// The content hash committing a whole tree: a deterministic function of
/// the tree's model alone, so equal trees always flush to equal roots.
pub open spec fn spec_root(m: TreeModel) -> Cid {
    Cid {
        hash: digest_bindings(
            m.bindings,
            0,
            digest_actors(m.actors, 0, mix(mix(0xcbf29ce484222325, m.actors.len() as u64), m.bindings.len() as u64)),
        ),
    }
}

/// Reverting twice to the same token leaves exactly the tree one revert
/// leaves: the first revert makes the token current, and reverting to a
/// current token changes nothing.
pub proof fn lemma_revert_idempotent(cur: TreeModel, saved: Seq<TreeModel>, t: int)
    requires
        0 <= t <= saved.len(),
    ensures
        spec_revert(spec_revert(cur, saved, t).0, spec_revert(cur, saved, t).1, t) == spec_revert(
            cur,
            saved,
            t,
        ),
{
}

/// The reserved reward and burnt-funds addresses resolve to valid actors in
/// every freshly initialized state tree, so transfers to and from them obey
/// the ordinary balance rules of `transfer`.
pub proof fn lemma_reserved_addresses_resolve()
    ensures
        init_model().resolve(Address::Id(REWARD_ACTOR_ID)) == Some(REWARD_ACTOR_ID),
        init_model().resolve(Address::Id(BURNT_FUNDS_ACTOR_ID)) == Some(BURNT_FUNDS_ACTOR_ID),
{
}

fn clone_data(d: &TreeData) -> (r: TreeData)
    ensures
        r@ == d@,
        r.total == d.total,
{
    let mut actors: Vec<Option<ActorState>> = Vec::new();
    let mut i: usize = 0;
    while i < d.actors.len()
        invariant
            i <= d.actors@.len(),
            actors@ == d.actors@.take(i as int),
        decreases d.actors@.len() - i,
    {
        actors.push(d.actors[i]);
        proof {
            assert(actors@ =~= d.actors@.take(i + 1));
        }
        i = i + 1;
    }
    let mut bindings: Vec<(u64, ActorID)> = Vec::new();
    let mut j: usize = 0;
    while j < d.bindings.len()
        invariant
            j <= d.bindings@.len(),
            bindings@ == d.bindings@.take(j as int),
        decreases d.bindings@.len() - j,
    {
        bindings.push(d.bindings[j]);
        proof {
            assert(bindings@ =~= d.bindings@.take(j + 1));
        }
        j = j + 1;
    }
    proof {
        assert(actors@ =~= d.actors@);
        assert(bindings@ =~= d.bindings@);
    }
    TreeData { actors, bindings, total: d.total }
}

} // verus!
