//! The ledger: registered accounts, their balances, and the total supply.
//!
//! The ledger is kept as a vector of `(account, balance)` pairs with
//! pairwise distinct accounts, plus the current total supply. Its contracts
//! speak of [`TokenModel`]: the balances as a map and the supply as an
//! integer. Every settled operation keeps the supply equal to the sum of
//! the balances, and every unit of supply that leaves does so as a named
//! burn — [`lemma_conservation`] states that accounting for any sequence
//! of ledger operations.

use vstd::prelude::*;

use crate::AccountId;
use crate::kv::{
    lemma_pairs_push, lemma_pairs_remove, lemma_pairs_update, lemma_pairs_value_at, pairs_has_key,
    pairs_map, pairs_unique,
};

verus! {

/// What the ledger holds, mathematically: each registered account's balance,
/// and the supply as an unbounded integer so that accounting is exact.
pub struct TokenModel {
    /// The balance of each registered account.
    pub balances: Map<Seq<char>, u128>,
    /// The current total supply.
    pub total_supply: int,
}

impl TokenModel {
    /// Whether `account` is registered.
    pub open spec fn registered(&self, account: Seq<char>) -> bool {
        self.balances.contains_key(account)
    }

    /// The balance of `account`; an unregistered account holds nothing.
    pub open spec fn balance_of(&self, account: Seq<char>) -> u128 {
        if self.registered(account) {
            self.balances[account]
        } else {
            0
        }
    }
}

/// The used amount a resolution settles on: the receiver's declared amount,
/// clamped to what was transferred; a hook that failed declares nothing.
pub open spec fn clamp_used(amount: u128, used_raw: Option<u128>) -> u128 {
    match used_raw {
        Some(u) => if u > amount {
            amount
        } else {
            u
        },
        None => 0,
    }
}

/// What the receiver declined: the transferred amount less the used amount.
pub open spec fn resolve_remainder(amount: u128, used_raw: Option<u128>) -> u128 {
    (amount - clamp_used(amount, used_raw)) as u128
}

/// When a plain transfer can settle: distinct registered parties, a positive
/// amount the sender holds, and a credit that fits the balance type.
pub open spec fn can_transfer(
    m: TokenModel,
    sender: Seq<char>,
    receiver: Seq<char>,
    amount: u128,
) -> bool {
    &&& sender != receiver
    &&& amount > 0
    &&& m.registered(sender)
    &&& m.registered(receiver)
    &&& amount <= m.balance_of(sender)
    &&& m.balance_of(receiver) + amount <= u128::MAX
}

/// The ledger after a transfer settles.
pub open spec fn transfer_effect(
    m: TokenModel,
    sender: Seq<char>,
    receiver: Seq<char>,
    amount: u128,
) -> TokenModel {
    TokenModel {
        balances: m.balances.insert(sender, (m.balance_of(sender) - amount) as u128).insert(
            receiver,
            (m.balance_of(receiver) + amount) as u128,
        ),
        total_supply: m.total_supply,
    }
}

/// When a resolution can settle: either nothing was declined, or the
/// remainder can be taken back from the receiver, and a refund to a still
/// registered sender fits the balance type.
pub open spec fn can_resolve(
    m: TokenModel,
    sender: Seq<char>,
    receiver: Seq<char>,
    amount: u128,
    used_raw: Option<u128>,
) -> bool {
    let remainder = resolve_remainder(amount, used_raw);
    remainder == 0 || {
        &&& sender != receiver
        &&& m.registered(receiver)
        &&& remainder <= m.balance_of(receiver)
        &&& m.registered(sender) ==> m.balance_of(sender) + remainder <= u128::MAX
    }
}

/// The ledger after a resolution settles: the receiver keeps only the used
/// amount; the remainder goes back to the sender where the sender is still
/// registered, and is burned where the sender is gone.
pub open spec fn resolve_effect(
    m: TokenModel,
    sender: Seq<char>,
    receiver: Seq<char>,
    amount: u128,
    used_raw: Option<u128>,
) -> TokenModel {
    let remainder = resolve_remainder(amount, used_raw);
    if remainder == 0 {
        m
    } else if m.registered(sender) {
        TokenModel {
            balances: m.balances.insert(
                receiver,
                (m.balance_of(receiver) - remainder) as u128,
            ).insert(sender, (m.balance_of(sender) + remainder) as u128),
            total_supply: m.total_supply,
        }
    } else {
        TokenModel {
            balances: m.balances.insert(receiver, (m.balance_of(receiver) - remainder) as u128),
            total_supply: m.total_supply - remainder,
        }
    }
}

/// What a resolution burns: the remainder, exactly when the sender is gone.
pub open spec fn resolve_burned(
    m: TokenModel,
    sender: Seq<char>,
    amount: u128,
    used_raw: Option<u128>,
) -> u128 {
    let remainder = resolve_remainder(amount, used_raw);
    if remainder == 0 || m.registered(sender) {
        0
    } else {
        remainder
    }
}

/// The sum of the balances in a pair sequence.
pub open spec fn sum_of(s: Seq<(Seq<char>, u128)>) -> int
    decreases s.len(),
{
    if s.len() == 0 {
        0
    } else {
        sum_of(s.drop_last()) + s.last().1
    }
}

pub proof fn lemma_sum_nonneg(s: Seq<(Seq<char>, u128)>)
    ensures
        sum_of(s) >= 0,
    decreases s.len(),
{
    if s.len() > 0 {
        lemma_sum_nonneg(s.drop_last());
    }
}

/// No single balance exceeds the sum of all of them.
pub proof fn lemma_sum_bounds(s: Seq<(Seq<char>, u128)>, i: int)
    requires
        0 <= i < s.len(),
    ensures
        s[i].1 <= sum_of(s),
    decreases s.len(),
{
    if i == s.len() - 1 {
        lemma_sum_nonneg(s.drop_last());
    } else {
        lemma_sum_bounds(s.drop_last(), i);
    }
}

pub proof fn lemma_sum_update(s: Seq<(Seq<char>, u128)>, i: int, p: (Seq<char>, u128))
    requires
        0 <= i < s.len(),
    ensures
        sum_of(s.update(i, p)) == sum_of(s) - s[i].1 + p.1,
    decreases s.len(),
{
    if i == s.len() - 1 {
        assert(s.update(i, p).drop_last() =~= s.drop_last());
    } else {
        assert(s.update(i, p).drop_last() =~= s.drop_last().update(i, p));
        lemma_sum_update(s.drop_last(), i, p);
    }
}

pub proof fn lemma_sum_push(s: Seq<(Seq<char>, u128)>, p: (Seq<char>, u128))
    ensures
        sum_of(s.push(p)) == sum_of(s) + p.1,
{
    assert(s.push(p).drop_last() =~= s);
}

pub proof fn lemma_sum_remove(s: Seq<(Seq<char>, u128)>, i: int)
    requires
        0 <= i < s.len(),
    ensures
        sum_of(s.remove(i)) == sum_of(s) - s[i].1,
    decreases s.len(),
{
    if i == s.len() - 1 {
        assert(s.remove(i) =~= s.drop_last());
    } else {
        assert(s.remove(i).drop_last() =~= s.drop_last().remove(i));
        assert(s.remove(i).last() == s.last());
        lemma_sum_remove(s.drop_last(), i);
    }
}

/// One settled ledger operation, as the conservation statement sees it.
pub enum LedgerOp {
    /// A plain transfer between two registered accounts.
    Transfer { sender: Seq<char>, receiver: Seq<char>, amount: u128 },
    /// The resolution of a notify-variant transfer.
    Resolve { sender: Seq<char>, receiver: Seq<char>, amount: u128, used_raw: Option<u128> },
    /// Registration of an account.
    Register { account: Seq<char> },
    /// Unregistration of an account, burning what it still holds.
    Unregister { account: Seq<char> },
}

/// The ledger after one operation; an operation whose conditions fail
/// settles nothing and leaves the ledger as it stands.
pub open spec fn step_state(m: TokenModel, op: LedgerOp) -> TokenModel {
    match op {
        LedgerOp::Transfer { sender, receiver, amount } => {
            if can_transfer(m, sender, receiver, amount) {
                transfer_effect(m, sender, receiver, amount)
            } else {
                m
            }
        },
        LedgerOp::Resolve { sender, receiver, amount, used_raw } => {
            if can_resolve(m, sender, receiver, amount, used_raw) {
                resolve_effect(m, sender, receiver, amount, used_raw)
            } else {
                m
            }
        },
        LedgerOp::Register { account } => {
            TokenModel {
                balances: m.balances.insert(account, m.balance_of(account)),
                ..m
            }
        },
        LedgerOp::Unregister { account } => {
            if m.registered(account) {
                TokenModel {
                    balances: m.balances.remove(account),
                    total_supply: m.total_supply - m.balance_of(account),
                }
            } else {
                m
            }
        },
    }
}

/// What one operation burns.
pub open spec fn step_burned(m: TokenModel, op: LedgerOp) -> int {
    match op {
        LedgerOp::Transfer { .. } => 0,
        LedgerOp::Resolve { sender, receiver, amount, used_raw } => {
            if can_resolve(m, sender, receiver, amount, used_raw) {
                resolve_burned(m, sender, amount, used_raw) as int
            } else {
                0
            }
        },
        LedgerOp::Register { .. } => 0,
        LedgerOp::Unregister { account } => {
            if m.registered(account) {
                m.balance_of(account) as int
            } else {
                0
            }
        },
    }
}

/// The ledger after a sequence of operations.
pub open spec fn apply_ops(m: TokenModel, ops: Seq<LedgerOp>) -> TokenModel
    decreases ops.len(),
{
    if ops.len() == 0 {
        m
    } else {
        step_state(apply_ops(m, ops.drop_last()), ops.last())
    }
}

/// Everything a sequence of operations burns.
pub open spec fn burned_total(m: TokenModel, ops: Seq<LedgerOp>) -> int
    decreases ops.len(),
{
    if ops.len() == 0 {
        0
    } else {
        burned_total(m, ops.drop_last()) + step_burned(apply_ops(m, ops.drop_last()), ops.last())
    }
}

/// Conservation: across any sequence of ledger operations, the supply before
/// equals the supply after plus everything burned along the way. No value
/// appears or vanishes except as a named burn — and since every settled
/// state keeps the supply equal to the sum of the balances, the supply
/// before equals the sum of the balances after plus the burns.
pub proof fn lemma_conservation(m: TokenModel, ops: Seq<LedgerOp>)
    ensures
        m.total_supply == apply_ops(m, ops).total_supply + burned_total(m, ops),
    decreases ops.len(),
{
    if ops.len() > 0 {
        lemma_conservation(m, ops.drop_last());
    }
}

/// The ledger.
pub struct Token {
    /// Registered accounts and their balances; accounts are pairwise distinct.
    pub accounts: Vec<(AccountId, u128)>,
    /// The current total supply.
    pub total_supply: u128,
}

impl Token {
    /// The account entries, with accounts as character sequences.
    pub open spec fn entries(&self) -> Seq<(Seq<char>, u128)> {
        self.accounts@.map_values(|p: (AccountId, u128)| (p.0@, p.1))
    }

    /// The balances as a map.
    pub open spec fn balances(&self) -> Map<Seq<char>, u128> {
        pairs_map(self.entries())
    }

    /// The ledger, mathematically.
    pub open spec fn model(&self) -> TokenModel {
        TokenModel { balances: self.balances(), total_supply: self.total_supply as int }
    }

    /// Accounts are pairwise distinct.
    pub open spec fn wf(&self) -> bool {
        pairs_unique(self.entries())
    }

    /// At a settled state the supply is exactly the sum of the balances.
    pub open spec fn balanced(&self) -> bool {
        self.total_supply == sum_of(self.entries())
    }

    /// A fresh ledger: the whole supply on the owner's account.
    pub fn new(owner_id: AccountId, total_supply: u128) -> (r: Token)
        ensures
            r.wf(),
            r.balanced(),
            r.model() == (TokenModel {
                balances: Map::<Seq<char>, u128>::empty().insert(owner_id@, total_supply),
                total_supply: total_supply as int,
            }),
    {
        let mut accounts: Vec<(AccountId, u128)> = Vec::new();
        let ghost empty = accounts@.map_values(|p: (AccountId, u128)| (p.0@, p.1));
        accounts.push((owner_id, total_supply));
        proof {
            let entries = accounts@.map_values(|p: (AccountId, u128)| (p.0@, p.1));
            assert(entries =~= empty.push((owner_id@, total_supply)));
            lemma_pairs_push(empty, owner_id@, total_supply);
            lemma_sum_push(empty, (owner_id@, total_supply));
            assert(pairs_map(empty) =~= Map::<Seq<char>, u128>::empty());
        }
        Token { accounts, total_supply }
    }

    /// Where `account_id` stands among the entries, if anywhere.
    fn find_account(&self, account_id: &AccountId) -> (r: Option<usize>)
        ensures
            match r {
                Some(i) => i < self.entries().len() && self.entries()[i as int].0 == account_id@,
                None => !pairs_has_key(self.entries(), account_id@),
            },
    {
        let n = self.accounts.len();
        let mut i: usize = 0;
        while i < n
            invariant
                n == self.accounts@.len(),
                i <= n,
                forall|j: int| 0 <= j < i ==> self.entries()[j].0 != account_id@,
            decreases n - i,
        {
            if self.accounts[i].0 == *account_id {
                return Some(i);
            }
            i += 1;
        }
        None
    }

    /// The current total supply.
    pub fn ft_total_supply(&self) -> (r: u128)
        ensures
            r == self.model().total_supply,
    {
        self.total_supply
    }

    /// The balance of `account_id`; an unregistered account holds nothing.
    pub fn ft_balance_of(&self, account_id: &AccountId) -> (r: u128)
        requires
            self.wf(),
        ensures
            r == self.model().balance_of(account_id@),
    {
        match self.find_account(account_id) {
            Some(i) => {
                proof {
                    lemma_pairs_value_at(self.entries(), i as int);
                }
                self.accounts[i].1
            },
            None => 0,
        }
    }

    /// Whether `account_id` is registered.
    pub fn is_registered(&self, account_id: &AccountId) -> (r: bool)
        ensures
            r == self.model().registered(account_id@),
    {
        self.find_account(account_id).is_some()
    }

    /// Credits `amount` to a registered account. The supply is untouched, so
    /// a credit alone is not a settled state; its caller restores the books.
    fn internal_deposit(&mut self, account_id: &AccountId, amount: u128)
        requires
            old(self).wf(),
            old(self).model().registered(account_id@),
            old(self).model().balance_of(account_id@) + amount <= u128::MAX,
        ensures
            final(self).wf(),
            final(self).balances() == old(self).balances().insert(
                account_id@,
                (old(self).model().balance_of(account_id@) + amount) as u128,
            ),
            final(self).total_supply == old(self).total_supply,
            sum_of(final(self).entries()) == sum_of(old(self).entries()) + amount,
    {
        let i = match self.find_account(account_id) {
            Some(i) => i,
            None => vstd::pervasive::unreached(),
        };
        proof {
            lemma_pairs_value_at(self.entries(), i as int);
        }
        let name = self.accounts[i].0.clone();
        let new_balance = self.accounts[i].1 + amount;
        let ghost before = self.entries();
        self.accounts[i] = (name, new_balance);
        proof {
            assert(self.entries() =~= before.update(i as int, (account_id@, new_balance)));
            lemma_pairs_update(before, i as int, account_id@, new_balance);
            lemma_sum_update(before, i as int, (account_id@, new_balance));
        }
    }

    /// Debits `amount` from a registered account that holds it. The supply is
    /// untouched, so a debit alone is not a settled state either.
    fn internal_withdraw(&mut self, account_id: &AccountId, amount: u128)
        requires
            old(self).wf(),
            old(self).model().registered(account_id@),
            amount <= old(self).model().balance_of(account_id@),
        ensures
            final(self).wf(),
            final(self).balances() == old(self).balances().insert(
                account_id@,
                (old(self).model().balance_of(account_id@) - amount) as u128,
            ),
            final(self).total_supply == old(self).total_supply,
            sum_of(final(self).entries()) == sum_of(old(self).entries()) - amount,
    {
        let i = match self.find_account(account_id) {
            Some(i) => i,
            None => vstd::pervasive::unreached(),
        };
        proof {
            lemma_pairs_value_at(self.entries(), i as int);
        }
        let name = self.accounts[i].0.clone();
        let new_balance = self.accounts[i].1 - amount;
        let ghost before = self.entries();
        self.accounts[i] = (name, new_balance);
        proof {
            assert(self.entries() =~= before.update(i as int, (account_id@, new_balance)));
            lemma_pairs_update(before, i as int, account_id@, new_balance);
            lemma_sum_update(before, i as int, (account_id@, new_balance));
        }
    }

    /// Registers `account_id` with an empty balance; registering an account
    /// twice changes nothing.
    pub fn register_account(&mut self, account_id: AccountId) -> (fresh: bool)
        requires
            old(self).wf(),
            old(self).balanced(),
        ensures
            final(self).wf(),
            final(self).balanced(),
            fresh == !old(self).model().registered(account_id@),
            final(self).model() == (TokenModel {
                balances: old(self).balances().insert(account_id@, old(self).model().balance_of(account_id@)),
                ..old(self).model()
            }),
    {
        match self.find_account(&account_id) {
            Some(i) => {
                proof {
                    lemma_pairs_value_at(self.entries(), i as int);
                    assert(self.balances() =~= self.balances().insert(
                        account_id@,
                        self.model().balance_of(account_id@),
                    ));
                }
                false
            },
            None => {
                let ghost before = self.entries();
                proof {
                    lemma_pairs_push(before, account_id@, 0);
                    lemma_sum_push(before, (account_id@, 0));
                }
                self.accounts.push((account_id, 0));
                proof {
                    assert(self.entries() =~= before.push((account_id@, 0)));
                }
                true
            },
        }
    }

    /// Unregisters `account_id`, burning whatever it still holds, and says
    /// how much that was; unregistering an absent account changes nothing.
    pub fn unregister_account(&mut self, account_id: &AccountId) -> (burned: Option<u128>)
        requires
            old(self).wf(),
            old(self).balanced(),
        ensures
            final(self).wf(),
            final(self).balanced(),
            burned == (if old(self).model().registered(account_id@) {
                Some(old(self).model().balance_of(account_id@))
            } else {
                None::<u128>
            }),
            final(self).model() == (if old(self).model().registered(account_id@) {
                TokenModel {
                    balances: old(self).balances().remove(account_id@),
                    total_supply: old(self).model().total_supply - old(self).model().balance_of(
                        account_id@,
                    ),
                }
            } else {
                old(self).model()
            }),
    {
        match self.find_account(account_id) {
            Some(i) => {
                proof {
                    lemma_pairs_value_at(self.entries(), i as int);
                    lemma_pairs_remove(self.entries(), i as int);
                    lemma_sum_remove(self.entries(), i as int);
                    lemma_sum_nonneg(self.entries().remove(i as int));
                }
                let ghost before = self.entries();
                let (_, balance) = self.accounts.remove(i);
                proof {
                    assert(self.entries() =~= before.remove(i as int));
                }
                self.total_supply = self.total_supply - balance;
                Some(balance)
            },
            None => None,
        }
    }

    /// Moves `amount` from the sender to the receiver; the supply stands.
    pub fn internal_transfer(&mut self, sender_id: &AccountId, receiver_id: &AccountId, amount: u128)
        requires
            old(self).wf(),
            old(self).balanced(),
            can_transfer(old(self).model(), sender_id@, receiver_id@, amount),
        ensures
            final(self).wf(),
            final(self).balanced(),
            final(self).model() == transfer_effect(
                old(self).model(),
                sender_id@,
                receiver_id@,
                amount,
            ),
    {
        self.internal_withdraw(sender_id, amount);
        self.internal_deposit(receiver_id, amount);
    }

    /// Settles a notify-variant transfer from the receiver's declared used
    /// amount: the declaration is clamped to the transferred amount, the
    /// receiver keeps only what it used, and what it declined returns to the
    /// sender — or is burned where the sender is no longer registered.
    /// Returns the used amount and the burned amount.
    pub fn internal_ft_resolve_transfer(
        &mut self,
        sender_id: &AccountId,
        receiver_id: &AccountId,
        amount: u128,
        used_raw: Option<u128>,
    ) -> (r: (u128, u128))
        requires
            old(self).wf(),
            old(self).balanced(),
            can_resolve(old(self).model(), sender_id@, receiver_id@, amount, used_raw),
        ensures
            final(self).wf(),
            final(self).balanced(),
            final(self).model() == resolve_effect(
                old(self).model(),
                sender_id@,
                receiver_id@,
                amount,
                used_raw,
            ),
            r.0 == clamp_used(amount, used_raw),
            r.1 == resolve_burned(old(self).model(), sender_id@, amount, used_raw),
    {
        let used = match used_raw {
            Some(u) => if u > amount {
                amount
            } else {
                u
            },
            None => 0,
        };
        let remainder = amount - used;
        if remainder == 0 {
            return (used, 0);
        }
        if self.is_registered(sender_id) {
            self.internal_withdraw(receiver_id, remainder);
            self.internal_deposit(sender_id, remainder);
            (used, 0)
        } else {
            let ghost before = self.entries();
            proof {
                let i = choose|i: int|
                    0 <= i < before.len() && before[i].0 == receiver_id@;
                lemma_pairs_value_at(before, i);
                lemma_sum_bounds(before, i);
            }
            self.internal_withdraw(receiver_id, remainder);
            self.total_supply = self.total_supply - remainder;
            (used, remainder)
        }
    }
}

} // verus!
