//! What holds of the journaled state whatever is done to it: going back to a
//! checkpoint restores the state, closing checkpoints changes nothing, and
//! warmth and touch marks only ever rise.

use vstd::prelude::*;
use crate::account::{AccountInfoModel, AccountModel};
use crate::bytecode::BytecodeModel;
use crate::journal_model::{JournalCheckpoint, JournalModel, LogModel};
use crate::primitives::{Address, SlotKey, U256};
use crate::spec_id::SpecId;

verus! {

/// One operation on the journaled state, with what the database answered where
/// the operation asks it.
pub enum Step {
    Touch(Address),
    LoadAccount(Address, Option<AccountInfoModel>),
    LoadCode(Address, Option<AccountInfoModel>, BytecodeModel),
    SLoad(Address, U256, U256),
    SStore(Address, U256, U256, U256),
    TStore(Address, U256, U256),
    IncNonce(Address),
    SetCode(Address, BytecodeModel),
    Log(LogModel),
    CreateAccount(Address, Address, U256, SpecId),
    SelfDestruct(Address, Address, Option<AccountInfoModel>),
    Checkpoint,
    Commit,
    Revert(JournalCheckpoint),
}

impl JournalModel {
    /// The sizes fit the machine, so that the journal and the logs can be indexed,
    /// and every transient slot has a value.
    pub open spec fn well_formed(self) -> bool {
        self.journal.len() <= usize::MAX && self.logs.len() <= usize::MAX
            && self.total_transient()
    }

    /// Every transient slot has a value.
    pub open spec fn total_transient(self) -> bool {
        forall|k: SlotKey| self.transient.contains_key(k)
    }

    /// Whether undoing the journal of `self` down to the length of the journal of
    /// `earlier` gives `earlier` back, logs and depth aside.
    pub open spec fn undoes_to(self, earlier: JournalModel) -> bool {
        self.journal.len() >= earlier.journal.len() && self.rollback(earlier.journal.len())
            == (JournalModel { logs: self.logs, depth: self.depth, ..earlier })
    }

    /// The state after one step. A step that cannot be taken changes nothing: a
    /// creation that is refused, and a commit or a revert without an open checkpoint.
    pub open spec fn apply(self, step: Step) -> JournalModel {
        match step {
            Step::Touch(a) => self.touch(a),
            Step::LoadAccount(a, fetched) => self.load_account(a, fetched),
            Step::LoadCode(a, fetched, code) => self.load_code(a, fetched, code),
            Step::SLoad(a, key, fetched) => self.sload(a, key, fetched),
            Step::SStore(a, key, new, fetched) => self.sstore(a, key, new, fetched),
            Step::TStore(a, key, new) => self.tstore(a, key, new),
            Step::IncNonce(a) => self.inc_nonce(a),
            Step::SetCode(a, code) => self.set_code(a, code),
            Step::Log(log) => self.log(log),
            Step::CreateAccount(caller, a, value, spec_id) => if self.has(caller) && self.has(a)
                && self.create_account_error(caller, a, value) is None {
                self.create_account(caller, a, value, spec_id)
            } else {
                self
            },
            Step::SelfDestruct(a, target, fetched) => if self.has(a) {
                self.selfdestruct(a, target, fetched)
            } else {
                self
            },
            Step::Checkpoint => self.checkpoint(),
            Step::Commit => if self.depth > 0 {
                self.commit()
            } else {
                self
            },
            Step::Revert(cp) => if self.can_revert(cp) {
                self.revert(cp)
            } else {
                self
            },
        }
    }

    /// The state after the steps, taken in order.
    pub open spec fn run(self, steps: Seq<Step>) -> JournalModel
        decreases steps.len(),
    {
        if steps.len() == 0 {
            self
        } else {
            self.run(steps.drop_last()).apply(steps.last())
        }
    }
}

/// Undoing does not look at the logs or the depth.
pub proof fn lemma_rollback_frame(s: JournalModel, n: nat, logs: Seq<LogModel>, depth: nat)
    ensures
        (JournalModel { logs, depth, ..s }).rollback(n) == (JournalModel {
            logs,
            depth,
            ..s.rollback(n)
        }),
    decreases s.journal.len(),
{
    let t = JournalModel { logs, depth, ..s };
    if s.journal.len() > n {
        assert(t.undo_last() == (JournalModel { logs, depth, ..s.undo_last() }));
        lemma_rollback_frame(s.undo_last(), n, logs, depth);
    }
}

/// Undoing down to `n` can be done in two stages.
pub proof fn lemma_rollback_twice(s: JournalModel, m: nat, n: nat)
    requires
        n <= m,
    ensures
        s.rollback(m).rollback(n) == s.rollback(n),
        s.rollback(m).journal.len() <= s.journal.len(),
        s.journal.len() >= m ==> s.rollback(m).journal.len() == m,
        s.rollback(m).logs == s.logs,
        s.rollback(m).depth == s.depth,
        s.rollback(m).spec == s.spec,
        s.rollback(m).warm_preloaded == s.warm_preloaded,
    decreases s.journal.len(),
{
    if s.journal.len() > m {
        lemma_rollback_twice(s.undo_last(), m, n);
    }
}

/// If taking the last entry off `t` gives `m`, and `m` undoes to `s`, then `t`
/// undoes to `s`.
pub proof fn lemma_undoes_one_more(t: JournalModel, m: JournalModel, s: JournalModel)
    requires
        t.journal.len() == m.journal.len() + 1,
        t.undo_last() == m,
        m.undoes_to(s),
    ensures
        t.undoes_to(s),
{
}

pub proof fn lemma_touch_undoes(s: JournalModel, a: Address)
    ensures
        s.touch(a).undoes_to(s),
        s.touch(a).logs == s.logs,
        s.touch(a).depth == s.depth,
{
    let t = s.touch(a);
    if s.has(a) && !s.accounts[a].status.touched {
        assert(t.undo_last() =~~= s);
        lemma_undoes_one_more(t, s, s);
    }
}

pub proof fn lemma_load_account_undoes(s: JournalModel, a: Address, fetched: Option<AccountInfoModel>)
    ensures
        s.load_account(a, fetched).undoes_to(s),
        s.load_account(a, fetched).logs == s.logs,
        s.load_account(a, fetched).depth == s.depth,
{
    let t = s.load_account(a, fetched);
    if t != s {
        assert(t.undo_last() =~~= s);
        lemma_undoes_one_more(t, s, s);
    }
}

pub proof fn lemma_load_code_undoes(
    s: JournalModel,
    a: Address,
    fetched: Option<AccountInfoModel>,
    code: BytecodeModel,
)
    ensures
        s.load_code(a, fetched, code).undoes_to(s),
        s.load_code(a, fetched, code).logs == s.logs,
        s.load_code(a, fetched, code).depth == s.depth,
{
    let m = s.load_account(a, fetched);
    let t = s.load_code(a, fetched, code);
    lemma_load_account_undoes(s, a, fetched);
    if t != m {
        assert(t.undo_last() =~~= m);
        lemma_undoes_one_more(t, m, s);
    }
}

pub proof fn lemma_sload_undoes(s: JournalModel, a: Address, key: U256, fetched: U256)
    ensures
        s.sload(a, key, fetched).undoes_to(s),
        s.sload(a, key, fetched).logs == s.logs,
        s.sload(a, key, fetched).depth == s.depth,
{
    let t = s.sload(a, key, fetched);
    if t != s {
        assert(t.undo_last() =~~= s);
        lemma_undoes_one_more(t, s, s);
    }
}

pub proof fn lemma_sstore_undoes(s: JournalModel, a: Address, key: U256, new: U256, fetched: U256)
    ensures
        s.sstore(a, key, new, fetched).undoes_to(s),
        s.sstore(a, key, new, fetched).logs == s.logs,
        s.sstore(a, key, new, fetched).depth == s.depth,
{
    let m = s.sload(a, key, fetched);
    let t = s.sstore(a, key, new, fetched);
    lemma_sload_undoes(s, a, key, fetched);
    if t != m {
        assert(t.undo_last() =~~= m);
        lemma_undoes_one_more(t, m, s);
    }
}

pub proof fn lemma_tstore_undoes(s: JournalModel, a: Address, key: U256, new: U256)
    requires
        s.total_transient(),
    ensures
        s.tstore(a, key, new).undoes_to(s),
        s.tstore(a, key, new).logs == s.logs,
        s.tstore(a, key, new).depth == s.depth,
{
    let t = s.tstore(a, key, new);
    if t != s {
        assert(t.undo_last() =~~= s);
        lemma_undoes_one_more(t, s, s);
    }
}

pub proof fn lemma_inc_nonce_undoes(s: JournalModel, a: Address)
    ensures
        s.inc_nonce(a).undoes_to(s),
        s.inc_nonce(a).logs == s.logs,
        s.inc_nonce(a).depth == s.depth,
{
    let m = s.touch(a);
    let t = s.inc_nonce(a);
    lemma_touch_undoes(s, a);
    if s.can_inc_nonce(a) {
        assert(t.undo_last() =~~= m);
        lemma_undoes_one_more(t, m, s);
    }
}

pub proof fn lemma_set_code_undoes(s: JournalModel, a: Address, code: BytecodeModel)
    ensures
        s.set_code(a, code).undoes_to(s),
        s.set_code(a, code).logs == s.logs,
        s.set_code(a, code).depth == s.depth,
{
    let m = s.touch(a);
    let t = s.set_code(a, code);
    lemma_touch_undoes(s, a);
    if s.has(a) {
        assert(t.undo_last() =~~= m);
        lemma_undoes_one_more(t, m, s);
    }
}

pub proof fn lemma_transfer_undoes(s: JournalModel, from: Address, to: Address, balance: U256)
    ensures
        s.transfer(from, to, balance).undoes_to(s),
        s.transfer(from, to, balance).logs == s.logs,
        s.transfer(from, to, balance).depth == s.depth,
{
    let t = s.transfer(from, to, balance);
    if s.has(from) {
        U256::lemma_wrapping_add_sub(s.accounts[from].info.balance, balance);
    }
    if s.has(to) {
        U256::lemma_wrapping_add_sub(s.accounts[to].info.balance, balance);
        U256::lemma_wrapping_add_sub(s.debit(from, balance).accounts[to].info.balance, balance);
    }
    assert(t.undo_last() =~~= s);
    lemma_undoes_one_more(t, s, s);
}

pub proof fn lemma_mark_created_undoes(s: JournalModel, a: Address)
    ensures
        s.mark_created(a).undoes_to(s),
        s.mark_created(a).logs == s.logs,
        s.mark_created(a).depth == s.depth,
{
    let t = s.mark_created(a);
    if t != s {
        assert(t.undo_last() =~~= s);
        lemma_undoes_one_more(t, s, s);
    }
}

pub proof fn lemma_start_nonce_undoes(s: JournalModel, a: Address, spec_id: SpecId)
    ensures
        s.start_nonce(a, spec_id).undoes_to(s),
        s.start_nonce(a, spec_id).logs == s.logs,
        s.start_nonce(a, spec_id).depth == s.depth,
{
    let t = s.start_nonce(a, spec_id);
    if t != s {
        assert(t.undo_last() =~~= s);
        lemma_undoes_one_more(t, s, s);
    }
}

pub proof fn lemma_create_account_undoes(
    s: JournalModel,
    caller: Address,
    a: Address,
    value: U256,
    spec_id: SpecId,
)
    ensures
        s.create_account(caller, a, value, spec_id).undoes_to(s),
        s.create_account(caller, a, value, spec_id).logs == s.logs,
        s.create_account(caller, a, value, spec_id).depth == s.depth + 1,
{
    let s1 = s.checkpoint();
    let s2 = s1.touch(a);
    let s3 = s2.mark_created(a);
    let s4 = s3.start_nonce(a, spec_id);
    let s5 = s4.transfer(caller, a, value);
    assert(s1.undoes_to(s));
    lemma_touch_undoes(s1, a);
    lemma_undoes_via(s2, s1, s);
    lemma_mark_created_undoes(s2, a);
    lemma_undoes_via(s3, s2, s);
    lemma_start_nonce_undoes(s3, a, spec_id);
    lemma_undoes_via(s4, s3, s);
    lemma_transfer_undoes(s4, caller, a, value);
    lemma_undoes_via(s5, s4, s);
}

/// Undoing in two stages: if `t` undoes to `m` and `m` undoes to `s`, then `t`
/// undoes to `s`.
pub proof fn lemma_undoes_via(t: JournalModel, m: JournalModel, s: JournalModel)
    requires
        t.undoes_to(m),
        m.undoes_to(s),
    ensures
        t.undoes_to(s),
{
    let n = s.journal.len();
    lemma_rollback_twice(t, m.journal.len(), n);
    lemma_rollback_frame(m, n, t.logs, t.depth);
}

pub proof fn lemma_destroy_undoes(s: JournalModel, a: Address, target: Address)
    requires
        s.has(a),
    ensures
        s.destroy(a, target).undoes_to(s),
        s.destroy(a, target).logs == s.logs,
        s.destroy(a, target).depth == s.depth,
{
    let balance = s.accounts[a].info.balance;
    let t = s.destroy(a, target);
    U256::lemma_wrapping_add_plain(balance, balance);
    if a != target && s.has(target) {
        U256::lemma_wrapping_add_sub(s.accounts[target].info.balance, balance);
    }
    assert(t.undo_last() =~~= s);
    lemma_undoes_one_more(t, s, s);
}

pub proof fn lemma_selfdestruct_undoes(
    s: JournalModel,
    a: Address,
    target: Address,
    fetched: Option<AccountInfoModel>,
)
    requires
        s.has(a),
    ensures
        s.selfdestruct(a, target, fetched).undoes_to(s),
        s.selfdestruct(a, target, fetched).logs == s.logs,
        s.selfdestruct(a, target, fetched).depth == s.depth,
{
    let s1 = s.load_account(target, fetched);
    let t = s.selfdestruct(a, target, fetched);
    lemma_load_account_undoes(s, target, fetched);
    if s1.destroys(a) {
        let s2 = if a != target {
            s1.touch(target)
        } else {
            s1
        };
        let s3 = s2.touch(a);
        lemma_touch_undoes(s1, target);
        lemma_undoes_via(s2, s1, s);
        lemma_touch_undoes(s2, a);
        lemma_undoes_via(s3, s2, s);
        lemma_destroy_undoes(s3, a, target);
        lemma_undoes_via(t, s3, s);
    } else if a != target {
        let s2 = s1.touch(target);
        lemma_touch_undoes(s1, target);
        lemma_undoes_via(s2, s1, s);
        lemma_transfer_undoes(s2, a, target, s1.accounts[a].info.balance);
        lemma_undoes_via(t, s2, s);
    }
}

/// Undoing keeps every transient slot with a value.
pub proof fn lemma_rollback_total(s: JournalModel, n: nat)
    requires
        s.total_transient(),
    ensures
        s.rollback(n).total_transient(),
    decreases s.journal.len(),
{
    if s.journal.len() > n {
        lemma_rollback_total(s.undo_last(), n);
    }
}

/// No step takes the value of a transient slot away.
pub proof fn lemma_apply_total(s: JournalModel, step: Step)
    requires
        s.total_transient(),
    ensures
        s.apply(step).total_transient(),
{
    match step {
        Step::Revert(cp) => {
            lemma_rollback_total(s, cp.journal_i as nat);
        },
        _ => {},
    }
}

/// A step that is no revert can be undone: undoing the entries it left in the
/// journal gives the state before it, logs and depth aside.
pub proof fn lemma_apply_undoes(s: JournalModel, step: Step)
    requires
        s.total_transient(),
        !(step is Revert),
    ensures
        s.apply(step).undoes_to(s),
        s.apply(step).logs.len() >= s.logs.len(),
        s.apply(step).logs.subrange(0, s.logs.len() as int) == s.logs,
{
    let t = s.apply(step);
    match step {
        Step::Touch(a) => {
            lemma_touch_undoes(s, a);
        },
        Step::LoadAccount(a, fetched) => {
            lemma_load_account_undoes(s, a, fetched);
        },
        Step::LoadCode(a, fetched, code) => {
            lemma_load_code_undoes(s, a, fetched, code);
        },
        Step::SLoad(a, key, fetched) => {
            lemma_sload_undoes(s, a, key, fetched);
        },
        Step::SStore(a, key, new, fetched) => {
            lemma_sstore_undoes(s, a, key, new, fetched);
        },
        Step::TStore(a, key, new) => {
            lemma_tstore_undoes(s, a, key, new);
        },
        Step::IncNonce(a) => {
            lemma_inc_nonce_undoes(s, a);
        },
        Step::SetCode(a, code) => {
            lemma_set_code_undoes(s, a, code);
        },
        Step::Log(log) => {},
        Step::CreateAccount(caller, a, value, spec_id) => {
            lemma_create_account_undoes(s, caller, a, value, spec_id);
        },
        Step::SelfDestruct(a, target, fetched) => {
            if s.has(a) {
                lemma_selfdestruct_undoes(s, a, target, fetched);
            }
        },
        Step::Checkpoint => {},
        Step::Commit => {},
        Step::Revert(cp) => {},
    }
    assert(t.logs.subrange(0, s.logs.len() as int) =~= s.logs);
}

/// Whether each revert among the steps goes back no further than `base`.
pub open spec fn reverts_stay_above(steps: Seq<Step>, base: JournalCheckpoint) -> bool {
    forall|i: int|
        0 <= i < steps.len() ==> (#[trigger] steps[i] matches Step::Revert(cp) ==> cp.journal_i
            >= base.journal_i && cp.log_i >= base.log_i)
}

/// Whatever steps are taken from `s`, as long as no revert among them goes back
/// further than `s`, the journal can be undone down to `s`, and the logs of `s`
/// are still the first logs.
pub proof fn lemma_run_undoes(s: JournalModel, steps: Seq<Step>)
    requires
        s.well_formed(),
        reverts_stay_above(steps, s.checkpoint_handle()),
    ensures
        s.run(steps).undoes_to(s),
        s.run(steps).total_transient(),
        s.run(steps).logs.len() >= s.logs.len(),
        s.run(steps).logs.subrange(0, s.logs.len() as int) == s.logs,
    decreases steps.len(),
{
    if steps.len() == 0 {
        assert(s.logs.subrange(0, s.logs.len() as int) =~= s.logs);
    } else {
        let before = steps.drop_last();
        let m = s.run(before);
        let t = m.apply(steps.last());
        assert forall|i: int| 0 <= i < before.len() implies (#[trigger] before[i] matches Step::Revert(
            cp,
        ) ==> cp.journal_i >= s.checkpoint_handle().journal_i && cp.log_i
            >= s.checkpoint_handle().log_i) by {
            assert(before[i] == steps[i]);
        }
        lemma_run_undoes(s, before);
        lemma_apply_total(m, steps.last());
        let n = s.journal.len();
        match steps.last() {
            Step::Revert(cp) => {
                assert(steps[steps.len() - 1] == steps.last());
                if m.can_revert(cp) {
                    let back = m.rollback(cp.journal_i as nat);
                    lemma_rollback_twice(m, cp.journal_i as nat, n);
                    lemma_rollback_frame(back, n, t.logs, t.depth);
                    assert(t.logs.subrange(0, s.logs.len() as int) =~= s.logs);
                }
            },
            _ => {
                lemma_apply_undoes(m, steps.last());
                lemma_undoes_via(t, m, s);
                assert(t.logs.subrange(0, s.logs.len() as int) =~= s.logs);
            },
        }
    }
}

/// Going back to a checkpoint restores the state. Take a checkpoint, then any
/// steps, among them further checkpoints, commits and reverts that go back no
/// further than that checkpoint; then go back to it. The accounts with their
/// storage, the transient storage, the logs and the journal are what they were
/// when the checkpoint was taken. (Only what the journal records is undone: the
/// accounts and slots that the access list has loaded stay warm.)
pub proof fn lemma_revert_restores(s: JournalModel, steps: Seq<Step>)
    requires
        s.well_formed(),
        reverts_stay_above(steps, s.checkpoint_handle()),
        s.checkpoint().run(steps).depth > 0,
    ensures
        s.checkpoint().run(steps).can_revert(s.checkpoint_handle()),
        s.checkpoint().run(steps).revert(s.checkpoint_handle()) == (JournalModel {
            depth: (s.checkpoint().run(steps).depth - 1) as nat,
            ..s
        }),
{
    let c = s.checkpoint();
    let t = c.run(steps);
    lemma_run_undoes(c, steps);
    assert(t.revert(s.checkpoint_handle()) =~~= (JournalModel {
        depth: (t.depth - 1) as nat,
        ..s
    }));
}

/// Whether no step among them closes or goes back to a checkpoint.
pub open spec fn no_closing(steps: Seq<Step>) -> bool {
    forall|i: int| 0 <= i < steps.len() ==> !(#[trigger] steps[i] is Commit) && !(steps[i] is Revert)
}

/// Whether no step among them goes back to a checkpoint.
pub open spec fn no_revert(steps: Seq<Step>) -> bool {
    forall|i: int| 0 <= i < steps.len() ==> !(#[trigger] steps[i] is Revert)
}

pub proof fn lemma_touch_at_depth(s: JournalModel, a: Address, depth: nat)
    ensures
        s.with_depth(depth).touch(a) == s.touch(a).with_depth(depth),
        s.touch(a).depth == s.depth,
{
    assert(s.with_depth(depth).touch(a) =~~= s.touch(a).with_depth(depth));
}

pub proof fn lemma_load_account_at_depth(
    s: JournalModel,
    a: Address,
    fetched: Option<AccountInfoModel>,
    depth: nat,
)
    ensures
        s.with_depth(depth).load_account(a, fetched) == s.load_account(a, fetched).with_depth(depth),
        s.load_account(a, fetched).depth == s.depth,
{
    assert(s.with_depth(depth).load_account(a, fetched) =~~= s.load_account(a, fetched).with_depth(
        depth,
    ));
}

pub proof fn lemma_sload_at_depth(s: JournalModel, a: Address, key: U256, fetched: U256, depth: nat)
    ensures
        s.with_depth(depth).sload(a, key, fetched) == s.sload(a, key, fetched).with_depth(depth),
        s.sload(a, key, fetched).depth == s.depth,
{
    assert(s.with_depth(depth).sload(a, key, fetched) =~~= s.sload(a, key, fetched).with_depth(
        depth,
    ));
}

pub proof fn lemma_transfer_at_depth(
    s: JournalModel,
    from: Address,
    to: Address,
    balance: U256,
    depth: nat,
)
    ensures
        s.with_depth(depth).transfer(from, to, balance) == s.transfer(from, to, balance).with_depth(
            depth,
        ),
        s.transfer(from, to, balance).depth == s.depth,
{
    assert(s.with_depth(depth).debit(from, balance) =~~= s.debit(from, balance).with_depth(depth));
    let m = s.debit(from, balance);
    assert(m.with_depth(depth).credit(to, balance) =~~= m.credit(to, balance).with_depth(depth));
    assert(s.with_depth(depth).transfer(from, to, balance) =~~= s.transfer(
        from,
        to,
        balance,
    ).with_depth(depth));
}

pub proof fn lemma_create_at_depth(
    s: JournalModel,
    caller: Address,
    a: Address,
    value: U256,
    spec_id: SpecId,
    depth: nat,
)
    ensures
        s.with_depth(depth).create_account(caller, a, value, spec_id) == s.create_account(
            caller,
            a,
            value,
            spec_id,
        ).with_depth(depth + 1),
        s.create_account(caller, a, value, spec_id).depth == s.depth + 1,
{
    let d = depth + 1;
    let s1 = s.checkpoint();
    assert(s.with_depth(depth).checkpoint() =~~= s1.with_depth(d));
    lemma_touch_at_depth(s1, a, d);
    let s2 = s1.touch(a);
    assert(s2.with_depth(d).mark_created(a) =~~= s2.mark_created(a).with_depth(d));
    let s3 = s2.mark_created(a);
    assert(s3.with_depth(d).start_nonce(a, spec_id) =~~= s3.start_nonce(a, spec_id).with_depth(d));
    let s4 = s3.start_nonce(a, spec_id);
    lemma_transfer_at_depth(s4, caller, a, value, d);
}

pub proof fn lemma_selfdestruct_at_depth(
    s: JournalModel,
    a: Address,
    target: Address,
    fetched: Option<AccountInfoModel>,
    depth: nat,
)
    ensures
        s.with_depth(depth).selfdestruct(a, target, fetched) == s.selfdestruct(
            a,
            target,
            fetched,
        ).with_depth(depth),
        s.selfdestruct(a, target, fetched).depth == s.depth,
{
    let s1 = s.load_account(target, fetched);
    lemma_load_account_at_depth(s, target, fetched, depth);
    lemma_touch_at_depth(s1, target, depth);
    if s1.destroys(a) {
        let s2 = if a != target {
            s1.touch(target)
        } else {
            s1
        };
        lemma_touch_at_depth(s2, a, depth);
        let s3 = s2.touch(a);
        let balance = s3.accounts[a].info.balance;
        assert(s3.with_depth(depth).credit(target, balance) =~~= s3.credit(
            target,
            balance,
        ).with_depth(depth));
        assert(s3.with_depth(depth).destroy(a, target) =~~= s3.destroy(a, target).with_depth(
            depth,
        ));
    } else if a != target {
        lemma_transfer_at_depth(s1.touch(target), a, target, s1.accounts[a].info.balance, depth);
    }
}

/// A step that closes no checkpoint does not look at the depth: it does the same
/// at every depth, and never lowers it.
pub proof fn lemma_apply_at_depth(s: JournalModel, step: Step, depth: nat)
    requires
        !(step is Commit),
        !(step is Revert),
    ensures
        s.apply(step).depth >= s.depth,
        s.with_depth(depth).apply(step) == s.apply(step).with_depth(
            (depth + s.apply(step).depth - s.depth) as nat,
        ),
{
    let t = s.with_depth(depth).apply(step);
    let want = s.apply(step).with_depth((depth + s.apply(step).depth - s.depth) as nat);
    match step {
        Step::Touch(a) => {
            lemma_touch_at_depth(s, a, depth);
        },
        Step::LoadAccount(a, fetched) => {
            lemma_load_account_at_depth(s, a, fetched, depth);
        },
        Step::LoadCode(a, fetched, code) => {
            lemma_load_account_at_depth(s, a, fetched, depth);
            assert(t =~~= want);
        },
        Step::SLoad(a, key, fetched) => {
            lemma_sload_at_depth(s, a, key, fetched, depth);
        },
        Step::SStore(a, key, new, fetched) => {
            lemma_sload_at_depth(s, a, key, fetched, depth);
            assert(t =~~= want);
        },
        Step::TStore(a, key, new) => {
            assert(t =~~= want);
        },
        Step::IncNonce(a) => {
            lemma_touch_at_depth(s, a, depth);
            assert(t =~~= want);
        },
        Step::SetCode(a, code) => {
            lemma_touch_at_depth(s, a, depth);
            assert(t =~~= want);
        },
        Step::Log(log) => {
            assert(t =~~= want);
        },
        Step::CreateAccount(caller, a, value, spec_id) => {
            if s.apply(step) != s {
                lemma_create_at_depth(s, caller, a, value, spec_id, depth);
            } else {
                assert(t =~~= want);
            }
        },
        Step::SelfDestruct(a, target, fetched) => {
            if s.has(a) {
                lemma_selfdestruct_at_depth(s, a, target, fetched, depth);
            } else {
                assert(t =~~= want);
            }
        },
        Step::Checkpoint => {
            assert(t =~~= want);
        },
        Step::Commit => {},
        Step::Revert(cp) => {},
    }
}

/// Steps that close no checkpoint do the same at every depth.
pub proof fn lemma_run_at_depth(s: JournalModel, steps: Seq<Step>, depth: nat)
    requires
        no_closing(steps),
    ensures
        s.run(steps).depth >= s.depth,
        s.with_depth(depth).run(steps) == s.run(steps).with_depth(
            (depth + s.run(steps).depth - s.depth) as nat,
        ),
    decreases steps.len(),
{
    if steps.len() > 0 {
        let before = steps.drop_last();
        assert forall|i: int| 0 <= i < before.len() implies !(#[trigger] before[i] is Commit) && !(
        before[i] is Revert) by {
            assert(before[i] == steps[i]);
        }
        lemma_run_at_depth(s, before, depth);
        let m = s.run(before);
        assert(steps[steps.len() - 1] == steps.last());
        lemma_apply_at_depth(m, steps.last(), (depth + m.depth - s.depth) as nat);
    } else {
        assert(s.with_depth(depth) =~~= s.with_depth((depth + s.depth - s.depth) as nat));
    }
}

/// Running two lists of steps one after the other is running their concatenation.
pub proof fn lemma_run_concat(s: JournalModel, first: Seq<Step>, second: Seq<Step>)
    ensures
        s.run(first).run(second) == s.run(first + second),
    decreases second.len(),
{
    if second.len() == 0 {
        assert(first + second =~= first);
    } else {
        lemma_run_concat(s, first, second.drop_last());
        assert((first + second).drop_last() =~= first + second.drop_last());
        assert((first + second).last() == second.last());
    }
}

/// Checkpoints that are committed leave no trace. Take a checkpoint, some steps,
/// a second checkpoint, more steps, and commit twice: the state is the one that
/// the steps alone lead to.
pub proof fn lemma_nested_commit(s: JournalModel, first: Seq<Step>, second: Seq<Step>)
    requires
        no_closing(first),
        no_closing(second),
    ensures
        s.checkpoint().run(first).checkpoint().run(second).commit().commit() == s.run(
            first + second,
        ),
{
    let flat1 = s.run(first);
    lemma_run_at_depth(s, first, s.depth + 1);
    let nested1 = s.checkpoint().run(first);
    assert(s.checkpoint() == s.with_depth(s.depth + 1));
    assert(nested1 == flat1.with_depth(flat1.depth + 1));
    lemma_run_at_depth(flat1, second, flat1.depth + 2);
    assert(nested1.checkpoint() == flat1.with_depth(flat1.depth + 2));
    let flat2 = flat1.run(second);
    let nested2 = nested1.checkpoint().run(second);
    assert(nested2 == flat2.with_depth(flat2.depth + 2));
    assert(nested2.commit().commit() =~~= flat2);
    lemma_run_concat(s, first, second);
}

/// Whether everything that is warm or touched in `s` is so in `t`: each cached
/// account is still cached, each warm account and slot still warm, each touched
/// account still touched, and each cached slot still cached with the original
/// value it had.
pub open spec fn risen(s: JournalModel, t: JournalModel) -> bool {
    &&& forall|a: Address| #[trigger] s.has(a) ==> t.has(a)
    &&& forall|a: Address| #[trigger] s.is_warm(a) ==> t.is_warm(a)
    &&& forall|a: Address| #[trigger] s.is_touched(a) ==> t.is_touched(a)
    &&& forall|a: Address, key: U256| #[trigger] s.is_slot_warm(a, key) ==> t.is_slot_warm(a, key)
    &&& forall|a: Address, key: U256| #[trigger]
        s.has_slot(a, key) ==> t.has_slot(a, key) && t.accounts[a].storage[key].original_value
            == s.accounts[a].storage[key].original_value
}

/// What has risen stays risen.
pub proof fn lemma_risen_twice(s: JournalModel, m: JournalModel, t: JournalModel)
    requires
        risen(s, m),
        risen(m, t),
    ensures
        risen(s, t),
{
    assert forall|a: Address, key: U256| #[trigger] s.has_slot(a, key) implies t.has_slot(a, key)
        && t.accounts[a].storage[key].original_value
        == s.accounts[a].storage[key].original_value by {
        assert(m.has_slot(a, key));
    }
}

pub proof fn lemma_touch_rises(s: JournalModel, a: Address)
    ensures
        risen(s, s.touch(a)),
{
}

pub proof fn lemma_load_account_rises(s: JournalModel, a: Address, fetched: Option<AccountInfoModel>)
    ensures
        risen(s, s.load_account(a, fetched)),
{
}

pub proof fn lemma_sload_rises(s: JournalModel, a: Address, key: U256, fetched: U256)
    ensures
        risen(s, s.sload(a, key, fetched)),
        s.has(a) ==> s.sload(a, key, fetched).has_slot(a, key),
{
}

pub proof fn lemma_record_rises(s: JournalModel, a: Address, account: AccountModel)
    requires
        s.has(a),
        account.status.warm_access == s.accounts[a].status.warm_access,
        account.status.touched == s.accounts[a].status.touched,
        account.storage == s.accounts[a].storage,
    ensures
        risen(s, s.with_account(a, account)),
{
}

/// No step but a revert makes a warm account or slot cold, takes a touch mark
/// away, or changes the original value of a slot.
pub proof fn lemma_apply_rises(s: JournalModel, step: Step)
    requires
        !(step is Revert),
    ensures
        risen(s, s.apply(step)),
{
    let t = s.apply(step);
    match step {
        Step::Touch(a) => {
            lemma_touch_rises(s, a);
        },
        Step::LoadAccount(a, fetched) => {
            lemma_load_account_rises(s, a, fetched);
        },
        Step::LoadCode(a, fetched, code) => {
            lemma_load_account_rises(s, a, fetched);
            let m = s.load_account(a, fetched);
            if t != m {
                lemma_record_rises(
                    m,
                    a,
                    m.accounts[a].with_code(
                        m.accounts[a].info.code_hash,
                        t.accounts[a].info.code,
                    ),
                );
            }
            assert(risen(m, t));
            lemma_risen_twice(s, m, t);
        },
        Step::SLoad(a, key, fetched) => {
            lemma_sload_rises(s, a, key, fetched);
        },
        Step::SStore(a, key, new, fetched) => {
            lemma_sload_rises(s, a, key, fetched);
            let m = s.sload(a, key, fetched);
            assert(risen(m, t));
            lemma_risen_twice(s, m, t);
        },
        Step::TStore(a, key, new) => {},
        Step::IncNonce(a) => {
            lemma_touch_rises(s, a);
            let m = s.touch(a);
            if s.can_inc_nonce(a) {
                lemma_record_rises(
                    m,
                    a,
                    m.accounts[a].with_nonce((m.accounts[a].info.nonce + 1) as u64),
                );
                assert(risen(m, t));
                lemma_risen_twice(s, m, t);
            }
        },
        Step::SetCode(a, code) => {
            lemma_touch_rises(s, a);
            let m = s.touch(a);
            if s.has(a) {
                lemma_record_rises(m, a, m.accounts[a].with_code(code.hash(), Some(code)));
            }
            assert(risen(m, t));
            lemma_risen_twice(s, m, t);
        },
        Step::Log(log) => {},
        Step::CreateAccount(caller, a, value, spec_id) => {
            if t != s {
                lemma_create_rises(s, caller, a, value, spec_id);
            }
        },
        Step::SelfDestruct(a, target, fetched) => {
            if s.has(a) {
                lemma_selfdestruct_rises(s, a, target, fetched);
            }
        },
        Step::Checkpoint => {},
        Step::Commit => {},
        Step::Revert(cp) => {},
    }
}

pub proof fn lemma_transfer_rises(s: JournalModel, from: Address, to: Address, balance: U256)
    ensures
        risen(s, s.transfer(from, to, balance)),
{
    let m = s.debit(from, balance);
    assert(risen(s, m));
    let c = m.credit(to, balance);
    assert(risen(m, c));
    lemma_risen_twice(s, m, c);
    assert(risen(c, s.transfer(from, to, balance)));
    lemma_risen_twice(s, c, s.transfer(from, to, balance));
}

pub proof fn lemma_create_rises(
    s: JournalModel,
    caller: Address,
    a: Address,
    value: U256,
    spec_id: SpecId,
)
    requires
        s.has(a),
    ensures
        risen(s, s.create_account(caller, a, value, spec_id)),
        s.create_account(caller, a, value, spec_id).is_touched(a),
        s.create_account(caller, a, value, spec_id).accounts[a].status.created,
{
    let s1 = s.checkpoint();
    let s2 = s1.touch(a);
    let s3 = s2.mark_created(a);
    let s4 = s3.start_nonce(a, spec_id);
    assert(risen(s, s1));
    lemma_touch_rises(s1, a);
    lemma_risen_twice(s, s1, s2);
    assert(risen(s2, s3));
    lemma_risen_twice(s, s2, s3);
    assert(risen(s3, s4));
    lemma_risen_twice(s, s3, s4);
    lemma_transfer_rises(s4, caller, a, value);
    lemma_risen_twice(s, s4, s4.transfer(caller, a, value));
    assert(s4.is_touched(a) && s4.accounts[a].status.created);
    let m = s4.debit(caller, value);
    assert(m.is_touched(a) && m.accounts[a].status.created);
}

pub proof fn lemma_selfdestruct_rises(
    s: JournalModel,
    a: Address,
    target: Address,
    fetched: Option<AccountInfoModel>,
)
    requires
        s.has(a),
    ensures
        risen(s, s.selfdestruct(a, target, fetched)),
{
    let s1 = s.load_account(target, fetched);
    lemma_load_account_rises(s, target, fetched);
    if s1.destroys(a) {
        let s2 = if a != target {
            s1.touch(target)
        } else {
            s1
        };
        lemma_touch_rises(s1, target);
        lemma_risen_twice(s, s1, s2);
        let s3 = s2.touch(a);
        lemma_touch_rises(s2, a);
        lemma_risen_twice(s, s2, s3);
        let s4 = if a != target {
            s3.credit(target, s3.accounts[a].info.balance)
        } else {
            s3
        };
        assert(risen(s3, s4));
        lemma_risen_twice(s, s3, s4);
        assert(risen(s4, s3.destroy(a, target)));
        lemma_risen_twice(s, s4, s3.destroy(a, target));
    } else if a != target {
        let s2 = s1.touch(target);
        lemma_touch_rises(s1, target);
        lemma_risen_twice(s, s1, s2);
        lemma_transfer_rises(s2, a, target, s1.accounts[a].info.balance);
        lemma_risen_twice(s, s2, s.selfdestruct(a, target, fetched));
    }
}

/// Warmth and touch marks only rise. Whatever steps are taken, as long as none
/// of them is a revert: an account that was warm is warm, a slot that was warm is
/// warm, an account that was touched is touched, and a slot that was cached has
/// the original value it had.
pub proof fn lemma_run_rises(s: JournalModel, steps: Seq<Step>)
    requires
        no_revert(steps),
    ensures
        risen(s, s.run(steps)),
    decreases steps.len(),
{
    if steps.len() > 0 {
        let before = steps.drop_last();
        assert forall|i: int| 0 <= i < before.len() implies !(#[trigger] before[i] is Revert) by {
            assert(before[i] == steps[i]);
        }
        lemma_run_rises(s, before);
        assert(steps[steps.len() - 1] == steps.last());
        lemma_apply_rises(s.run(before), steps.last());
        lemma_risen_twice(s, s.run(before), s.run(steps));
    }
}

/// Touching twice is touching once.
pub proof fn lemma_touch_idempotent(s: JournalModel, a: Address)
    ensures
        s.touch(a).touch(a) == s.touch(a),
{
}

/// A commit loses nothing: the accounts, the transient storage, the logs and the
/// journal are what they were, and one checkpoint less is open.
pub proof fn lemma_commit_keeps(s: JournalModel)
    requires
        s.depth > 0,
    ensures
        s.commit() == (JournalModel { depth: (s.depth - 1) as nat, ..s }),
        s.checkpoint().commit() == s,
{
    assert(s.checkpoint().commit() =~~= s);
}

/// A touch lasts. Once a cached account is touched, it is touched after any
/// steps that follow, commits among them, as long as none of them is a revert.
pub proof fn lemma_touch_persists(s: JournalModel, a: Address, steps: Seq<Step>)
    requires
        s.has(a),
        no_revert(steps),
    ensures
        s.touch(a).run(steps).is_touched(a),
{
    assert(s.touch(a).is_touched(a));
    lemma_run_rises(s.touch(a), steps);
}

/// Whether the status of every cached account is well formed: what is created or
/// marked for destruction is touched.
pub open spec fn statuses_ok(s: JournalModel) -> bool {
    forall|a: Address| s.has(a) ==> (#[trigger] s.accounts[a]).status.well_formed()
}

/// Whether the statuses are well formed now and in every state that undoing the
/// journal leads through.
pub open spec fn statuses_ok_throughout(s: JournalModel) -> bool {
    forall|n: nat| n <= s.journal.len() ==> statuses_ok(#[trigger] s.rollback(n))
}

/// One more entry keeps the statuses well formed throughout, where they are well
/// formed after it.
pub proof fn lemma_statuses_one_more(t: JournalModel, m: JournalModel)
    requires
        t.journal.len() == m.journal.len() + 1,
        t.undo_last() == m,
        statuses_ok(t),
        statuses_ok_throughout(m),
    ensures
        statuses_ok_throughout(t),
{
    assert forall|n: nat| n <= t.journal.len() implies statuses_ok(#[trigger] t.rollback(n)) by {
        if n < t.journal.len() {
            assert(t.rollback(n) == m.rollback(n));
        }
    }
}

/// A change of the logs or of the depth keeps the statuses well formed
/// throughout.
pub proof fn lemma_statuses_frame(m: JournalModel, logs: Seq<LogModel>, depth: nat)
    requires
        statuses_ok_throughout(m),
    ensures
        statuses_ok_throughout(JournalModel { logs, depth, ..m }),
{
    let t = JournalModel { logs, depth, ..m };
    assert forall|n: nat| n <= t.journal.len() implies statuses_ok(#[trigger] t.rollback(n)) by {
        lemma_rollback_frame(m, n, logs, depth);
        assert(statuses_ok(m.rollback(n)));
    }
}

pub proof fn lemma_statuses_now(s: JournalModel)
    requires
        statuses_ok_throughout(s),
    ensures
        statuses_ok(s),
{
    assert(s.rollback(s.journal.len()) == s);
}

pub proof fn lemma_touch_statuses(s: JournalModel, a: Address)
    requires
        statuses_ok_throughout(s),
    ensures
        statuses_ok_throughout(s.touch(a)),
{
    let t = s.touch(a);
    lemma_statuses_now(s);
    if t != s {
        assert(t.undo_last() =~~= s);
        lemma_statuses_one_more(t, s);
    }
}

pub proof fn lemma_load_account_statuses(
    s: JournalModel,
    a: Address,
    fetched: Option<AccountInfoModel>,
)
    requires
        statuses_ok_throughout(s),
    ensures
        statuses_ok_throughout(s.load_account(a, fetched)),
{
    let t = s.load_account(a, fetched);
    lemma_statuses_now(s);
    if t != s {
        assert(t.undo_last() =~~= s);
        lemma_statuses_one_more(t, s);
    }
}

pub proof fn lemma_transfer_statuses(s: JournalModel, from: Address, to: Address, balance: U256)
    requires
        statuses_ok_throughout(s),
    ensures
        statuses_ok_throughout(s.transfer(from, to, balance)),
{
    let t = s.transfer(from, to, balance);
    lemma_statuses_now(s);
    lemma_transfer_undoes(s, from, to, balance);
    assert(t.undo_last().rollback(s.journal.len()) == t.rollback(s.journal.len()));
    assert(t.undo_last() == s);
    let m = s.debit(from, balance);
    assert(statuses_ok(m));
    assert(statuses_ok(m.credit(to, balance)));
    lemma_statuses_one_more(t, s);
}

pub proof fn lemma_create_statuses(
    s: JournalModel,
    caller: Address,
    a: Address,
    value: U256,
    spec_id: SpecId,
)
    requires
        statuses_ok_throughout(s),
        s.has(a),
    ensures
        statuses_ok_throughout(s.create_account(caller, a, value, spec_id)),
{
    let s1 = s.checkpoint();
    lemma_statuses_frame(s, s.logs, s.depth + 1);
    assert(s1 == (JournalModel { logs: s.logs, depth: s.depth + 1, ..s }));
    lemma_touch_statuses(s1, a);
    let s2 = s1.touch(a);
    lemma_statuses_now(s2);
    let s3 = s2.mark_created(a);
    if s3 != s2 {
        assert(s3.undo_last() =~~= s2);
        lemma_statuses_one_more(s3, s2);
    }
    lemma_statuses_now(s3);
    let s4 = s3.start_nonce(a, spec_id);
    if s4 != s3 {
        assert(s4.undo_last() =~~= s3);
        lemma_statuses_one_more(s4, s3);
    }
    lemma_transfer_statuses(s4, caller, a, value);
}

pub proof fn lemma_selfdestruct_statuses(
    s: JournalModel,
    a: Address,
    target: Address,
    fetched: Option<AccountInfoModel>,
)
    requires
        statuses_ok_throughout(s),
        s.has(a),
    ensures
        statuses_ok_throughout(s.selfdestruct(a, target, fetched)),
{
    let s1 = s.load_account(target, fetched);
    lemma_load_account_statuses(s, target, fetched);
    if s1.destroys(a) {
        let s2 = if a != target {
            s1.touch(target)
        } else {
            s1
        };
        lemma_touch_statuses(s1, target);
        lemma_touch_statuses(s2, a);
        let s3 = s2.touch(a);
        lemma_statuses_now(s3);
        let t = s3.destroy(a, target);
        lemma_destroy_undoes(s3, a, target);
        assert(t.undo_last().rollback(s3.journal.len()) == t.rollback(s3.journal.len()));
        assert(t.undo_last() == s3);
        let balance = s3.accounts[a].info.balance;
        assert(statuses_ok(s3.credit(target, balance)));
        assert(statuses_ok(t));
        lemma_statuses_one_more(t, s3);
    } else if a != target {
        lemma_touch_statuses(s1, target);
        lemma_transfer_statuses(s1.touch(target), a, target, s1.accounts[a].info.balance);
    }
}

pub proof fn lemma_load_code_statuses(
    s: JournalModel,
    a: Address,
    fetched: Option<AccountInfoModel>,
    code: BytecodeModel,
)
    requires
        statuses_ok_throughout(s),
    ensures
        statuses_ok_throughout(s.load_code(a, fetched, code)),
{
    let t = s.load_code(a, fetched, code);
    lemma_load_account_statuses(s, a, fetched);
    let m = s.load_account(a, fetched);
    lemma_statuses_now(m);
    if t != m {
        assert(t.undo_last() =~~= m);
        lemma_statuses_one_more(t, m);
    }
}

pub proof fn lemma_sload_statuses(s: JournalModel, a: Address, key: U256, fetched: U256)
    requires
        statuses_ok_throughout(s),
    ensures
        statuses_ok_throughout(s.sload(a, key, fetched)),
{
    let t = s.sload(a, key, fetched);
    lemma_statuses_now(s);
    if t != s {
        assert(t.undo_last() =~~= s);
        lemma_statuses_one_more(t, s);
    }
}

pub proof fn lemma_sstore_statuses(s: JournalModel, a: Address, key: U256, new: U256, fetched: U256)
    requires
        statuses_ok_throughout(s),
    ensures
        statuses_ok_throughout(s.sstore(a, key, new, fetched)),
{
    let t = s.sstore(a, key, new, fetched);
    lemma_sload_statuses(s, a, key, fetched);
    let m = s.sload(a, key, fetched);
    lemma_statuses_now(m);
    if t != m {
        assert(t.undo_last() =~~= m);
        lemma_statuses_one_more(t, m);
    }
}

pub proof fn lemma_tstore_statuses(s: JournalModel, a: Address, key: U256, new: U256)
    requires
        statuses_ok_throughout(s),
    ensures
        statuses_ok_throughout(s.tstore(a, key, new)),
{
    let t = s.tstore(a, key, new);
    if t != s {
        assert(t.undo_last().accounts == s.accounts);
        assert(t.undo_last().journal =~= s.journal);
        assert forall|n: nat| n <= t.journal.len() implies statuses_ok(#[trigger] t.rollback(n)) by {
            if n < t.journal.len() {
                lemma_rollback_accounts(t.undo_last(), s, n);
                assert(statuses_ok(s.rollback(n)));
            } else {
                lemma_statuses_now(s);
            }
        }
    }
}

pub proof fn lemma_inc_nonce_statuses(s: JournalModel, a: Address)
    requires
        statuses_ok_throughout(s),
    ensures
        statuses_ok_throughout(s.inc_nonce(a)),
{
    let t = s.inc_nonce(a);
    lemma_touch_statuses(s, a);
    let m = s.touch(a);
    lemma_statuses_now(m);
    if s.can_inc_nonce(a) {
        assert(t.undo_last() =~~= m);
        lemma_statuses_one_more(t, m);
    }
}

pub proof fn lemma_set_code_statuses(s: JournalModel, a: Address, code: BytecodeModel)
    requires
        statuses_ok_throughout(s),
    ensures
        statuses_ok_throughout(s.set_code(a, code)),
{
    let t = s.set_code(a, code);
    lemma_touch_statuses(s, a);
    let m = s.touch(a);
    lemma_statuses_now(m);
    if s.has(a) {
        assert(t.undo_last() =~~= m);
        lemma_statuses_one_more(t, m);
    }
}

pub proof fn lemma_revert_statuses(s: JournalModel, cp: JournalCheckpoint)
    requires
        statuses_ok_throughout(s),
        s.can_revert(cp),
    ensures
        statuses_ok_throughout(s.revert(cp)),
{
    let t = s.revert(cp);
    let back = s.rollback(cp.journal_i as nat);
    lemma_rollback_twice(s, cp.journal_i as nat, 0);
    assert forall|n: nat| n <= t.journal.len() implies statuses_ok(#[trigger] t.rollback(n)) by {
        lemma_rollback_twice(s, cp.journal_i as nat, n);
        lemma_rollback_frame(back, n, t.logs, t.depth);
        assert(statuses_ok(s.rollback(n)));
    }
}

/// No step breaks the statuses: where they are well formed now and in every state
/// that undoing leads through, they are so after the step, a revert included.
pub proof fn lemma_apply_statuses(s: JournalModel, step: Step)
    requires
        statuses_ok_throughout(s),
    ensures
        statuses_ok_throughout(s.apply(step)),
{
    let t = s.apply(step);
    match step {
        Step::Touch(a) => {
            lemma_touch_statuses(s, a);
        },
        Step::LoadAccount(a, fetched) => {
            lemma_load_account_statuses(s, a, fetched);
        },
        Step::LoadCode(a, fetched, code) => {
            lemma_load_code_statuses(s, a, fetched, code);
        },
        Step::SLoad(a, key, fetched) => {
            lemma_sload_statuses(s, a, key, fetched);
        },
        Step::SStore(a, key, new, fetched) => {
            lemma_sstore_statuses(s, a, key, new, fetched);
        },
        Step::TStore(a, key, new) => {
            lemma_tstore_statuses(s, a, key, new);
        },
        Step::IncNonce(a) => {
            lemma_inc_nonce_statuses(s, a);
        },
        Step::SetCode(a, code) => {
            lemma_set_code_statuses(s, a, code);
        },
        Step::Log(log) => {
            lemma_statuses_frame(s, t.logs, s.depth);
            assert(t == (JournalModel { logs: t.logs, depth: s.depth, ..s }));
        },
        Step::CreateAccount(caller, a, value, spec_id) => {
            if t != s {
                lemma_create_statuses(s, caller, a, value, spec_id);
            }
        },
        Step::SelfDestruct(a, target, fetched) => {
            if s.has(a) {
                lemma_selfdestruct_statuses(s, a, target, fetched);
            }
        },
        Step::Checkpoint => {
            lemma_statuses_frame(s, s.logs, s.depth + 1);
            assert(t == (JournalModel { logs: s.logs, depth: s.depth + 1, ..s }));
        },
        Step::Commit => {
            if s.depth > 0 {
                lemma_statuses_frame(s, s.logs, (s.depth - 1) as nat);
                assert(t == (JournalModel { logs: s.logs, depth: (s.depth - 1) as nat, ..s }));
            }
        },
        Step::Revert(cp) => {
            if s.can_revert(cp) {
                lemma_revert_statuses(s, cp);
            }
        },
    }
}

/// Undoing looks at the accounts and the journal only as far as the accounts go:
/// two states with the same journal and accounts have the same accounts after.
pub proof fn lemma_rollback_accounts(x: JournalModel, y: JournalModel, n: nat)
    requires
        x.accounts == y.accounts,
        x.journal == y.journal,
    ensures
        x.rollback(n).accounts == y.rollback(n).accounts,
    decreases x.journal.len(),
{
    if x.journal.len() > n {
        assert(x.undo_last().accounts =~~= y.undo_last().accounts);
        lemma_rollback_accounts(x.undo_last(), y.undo_last(), n);
    }
}

/// The statuses stay well formed. From a state whose statuses are well formed,
/// now and in every state that undoing leads through, any steps, reverts among
/// them, lead to a state of which the same holds: what is created or marked for
/// destruction is touched.
pub proof fn lemma_run_statuses(s: JournalModel, steps: Seq<Step>)
    requires
        statuses_ok_throughout(s),
    ensures
        statuses_ok_throughout(s.run(steps)),
        statuses_ok(s.run(steps)),
    decreases steps.len(),
{
    if steps.len() > 0 {
        lemma_run_statuses(s, steps.drop_last());
        lemma_apply_statuses(s.run(steps.drop_last()), steps.last());
    }
    lemma_statuses_now(s.run(steps));
}

/// At the start of a transaction the statuses are well formed throughout.
pub proof fn lemma_initial_statuses(spec: SpecId, warm_preloaded: Set<Address>)
    ensures
        statuses_ok_throughout(JournalModel::initial(spec, warm_preloaded)),
{
}

} // verus!
