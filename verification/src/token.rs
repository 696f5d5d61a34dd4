use vstd::prelude::*;

use crate::store::KeyedStore;

verus! {

/// The balance that a stored-balance map gives `account`: what is stored
/// under it, or 0 where nothing is.
pub open spec fn balance_in(balances: Map<Seq<char>, i128>, account: Seq<char>) -> int {
    if balances.contains_key(account) {
        balances[account] as int
    } else {
        0
    }
}

/// Whether a transfer of `amount` from `from` to `to` stays inside `i128`:
/// the sender's balance minus the amount and the receiver's balance plus the
/// amount, each computed from the balances before the transfer.
pub open spec fn transfer_in_range(
    balances: Map<Seq<char>, i128>,
    from: Seq<char>,
    to: Seq<char>,
    amount: i128,
) -> bool {
    &&& i128::MIN <= balance_in(balances, from) - amount <= i128::MAX
    &&& i128::MIN <= balance_in(balances, to) + amount <= i128::MAX
}

/// The stored balances after a transfer: both balances are read first, then
/// the sender's decreased balance is written, then the receiver's increased
/// balance. Where sender and receiver coincide, the second write wins.
pub open spec fn after_transfer(
    balances: Map<Seq<char>, i128>,
    from: Seq<char>,
    to: Seq<char>,
    amount: i128,
) -> Map<Seq<char>, i128> {
    balances.insert(from, (balance_in(balances, from) - amount) as i128).insert(
        to,
        (balance_in(balances, to) + amount) as i128,
    )
}

/// The test token: a balance per account strkey, as the token contract keeps
/// it in persistent storage. An account with nothing stored has balance 0.
pub struct MockToken {
    balances: KeyedStore<i128>,
}

impl MockToken {
    pub closed spec fn wf(&self) -> bool {
        self.balances.wf()
    }

    /// A token with no stored balance.
    pub fn new() -> (t: Self)
        ensures
            t.wf(),
            t@ == Map::<Seq<char>, i128>::empty(),
    {
        MockToken { balances: KeyedStore::new() }
    }

    /// Stores `amount` as the balance of `account` (how a test seeds an
    /// account's funds).
    pub fn set_balance(&mut self, account: String, amount: i128)
        requires
            old(self).wf(),
        ensures
            final(self).wf(),
            final(self)@ == old(self)@.insert(account@, amount),
    {
        self.balances.set(account, amount);
    }

    /// The balance of `addr`: the stored value, or 0 where none is stored.
    pub fn balance(&self, addr: &String) -> (b: i128)
        requires
            self.wf(),
        ensures
            b == balance_in(self@, addr@),
            !self@.contains_key(addr@) ==> b == 0,
            self@.contains_key(addr@) ==> b == self@[addr@],
    {
        match self.balances.get(addr) {
            Some(b) => b,
            None => 0,
        }
    }

    /// Moves `amount` from `from` to `to`. No balance is checked: the sender
    /// may go negative, and a transfer to oneself adds `amount`, since the
    /// receiver's write follows the sender's and both were read before.
    pub fn transfer(&mut self, from: &String, to: &String, amount: i128)
        requires
            old(self).wf(),
            transfer_in_range(old(self)@, from@, to@, amount),
        ensures
            final(self).wf(),
            final(self)@ == after_transfer(old(self)@, from@, to@, amount),
    {
        let from_bal = self.balance(from);
        let to_bal = self.balance(to);
        self.balances.set(from.clone(), from_bal - amount);
        self.balances.set(to.clone(), to_bal + amount);
    }
}

/// An account with nothing stored has balance 0, and an account with a
/// stored balance has exactly that balance; so in a new token every account
/// has balance 0.
pub proof fn lemma_balance_is_stored_or_zero(balances: Map<Seq<char>, i128>, account: Seq<char>)
    ensures
        !balances.contains_key(account) ==> balance_in(balances, account) == 0,
        balances.contains_key(account) ==> balance_in(balances, account) == balances[account],
        balance_in(Map::<Seq<char>, i128>::empty(), account) == 0,
{
}

/// What a transfer stores, spelled out: both accounts end up stored; between
/// distinct accounts the sender holds its previous stored balance (0 if none)
/// minus `amount` and the receiver its previous stored balance (0 if none)
/// plus `amount`; a transfer to oneself stores the previous balance (0 if
/// none) plus `amount`; every other account keeps exactly what it had.
pub proof fn lemma_transfer_stores(
    balances: Map<Seq<char>, i128>,
    from: Seq<char>,
    to: Seq<char>,
    amount: i128,
)
    requires
        transfer_in_range(balances, from, to, amount),
    ensures
        ({
            let after = after_transfer(balances, from, to, amount);
            let from_before: int = if balances.contains_key(from) { balances[from] as int } else { 0 };
            let to_before: int = if balances.contains_key(to) { balances[to] as int } else { 0 };
            &&& after.contains_key(from)
            &&& after.contains_key(to)
            &&& from != to ==> after[from] == from_before - amount
            &&& after[to] == to_before + amount
            &&& forall|other: Seq<char>|
                other != from && other != to ==> (#[trigger] after.contains_key(other)
                    == balances.contains_key(other) && (balances.contains_key(other)
                    ==> after[other] == balances[other]))
        }),
{
}

/// A transfer between two distinct accounts conserves their combined balance:
/// the sender loses `amount`, the receiver gains it, and every other
/// account's balance is unchanged.
pub proof fn lemma_transfer_conserves(
    balances: Map<Seq<char>, i128>,
    from: Seq<char>,
    to: Seq<char>,
    amount: i128,
)
    requires
        from != to,
        transfer_in_range(balances, from, to, amount),
    ensures
        balance_in(after_transfer(balances, from, to, amount), from) == balance_in(balances, from)
            - amount,
        balance_in(after_transfer(balances, from, to, amount), to) == balance_in(balances, to)
            + amount,
        balance_in(after_transfer(balances, from, to, amount), from) + balance_in(
            after_transfer(balances, from, to, amount),
            to,
        ) == balance_in(balances, from) + balance_in(balances, to),
        forall|other: Seq<char>|
            other != from && other != to ==> #[trigger] balance_in(
                after_transfer(balances, from, to, amount),
                other,
            ) == balance_in(balances, other),
{
}

/// A transfer from an account to itself adds `amount` to its balance: the
/// receiver's write, computed from the balance read before the sender's
/// write, is the one that stays.
pub proof fn lemma_self_transfer_adds(
    balances: Map<Seq<char>, i128>,
    account: Seq<char>,
    amount: i128,
)
    requires
        transfer_in_range(balances, account, account, amount),
    ensures
        balance_in(after_transfer(balances, account, account, amount), account) == balance_in(
            balances,
            account,
        ) + amount,
        forall|other: Seq<char>|
            other != account ==> #[trigger] balance_in(
                after_transfer(balances, account, account, amount),
                other,
            ) == balance_in(balances, other),
{
}

/// Transferring `amount` from `from` to `to` and then back from `to` to
/// `from` leaves every account's balance as it was.
pub proof fn lemma_transfer_round_trip(
    balances: Map<Seq<char>, i128>,
    from: Seq<char>,
    to: Seq<char>,
    amount: i128,
)
    requires
        from != to,
        transfer_in_range(balances, from, to, amount),
    ensures
        transfer_in_range(after_transfer(balances, from, to, amount), to, from, amount),
        forall|account: Seq<char>|
            #[trigger] balance_in(
                after_transfer(after_transfer(balances, from, to, amount), to, from, amount),
                account,
            ) == balance_in(balances, account),
{
    lemma_transfer_conserves(balances, from, to, amount);
    let mid = after_transfer(balances, from, to, amount);
    lemma_transfer_conserves(mid, to, from, amount);
}

impl View for MockToken {
    type V = Map<Seq<char>, i128>;

    closed spec fn view(&self) -> Map<Seq<char>, i128> {
        self.balances.view()
    }
}

} // verus!
