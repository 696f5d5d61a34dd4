use vstd::prelude::*;

use crate::store::KeyedStore;

verus! {

/// Whether a stored-flag map marks `account` as verified: the stored flag, or
/// `false` where none is stored.
pub open spec fn verified_in(flags: Map<Seq<char>, bool>, account: Seq<char>) -> bool {
    flags.contains_key(account) && flags[account]
}

/// The test identity registry: a verification flag per account strkey, as
/// the registry contract keeps it in persistent storage.
pub struct MockRegistry {
    flags: KeyedStore<bool>,
}

impl MockRegistry {
    pub closed spec fn wf(&self) -> bool {
        self.flags.wf()
    }

    /// A registry in which no account is registered.
    pub fn new() -> (r: Self)
        ensures
            r.wf(),
            r@ == Map::<Seq<char>, bool>::empty(),
    {
        MockRegistry { flags: KeyedStore::new() }
    }

    /// Whether `address` is verified: its stored flag, or `false` where
    /// nothing is stored for it.
    pub fn is_verified(&self, address: &String) -> (v: bool)
        requires
            self.wf(),
        ensures
            v == verified_in(self@, address@),
            !self@.contains_key(address@) ==> !v,
            self@.contains_key(address@) ==> v == self@[address@],
    {
        match self.flags.get(address) {
            Some(flag) => flag,
            None => false,
        }
    }

    /// Marks `address` as verified.
    pub fn register(&mut self, address: String)
        requires
            old(self).wf(),
        ensures
            final(self).wf(),
            final(self)@ == old(self)@.insert(address@, true),
    {
        self.flags.set(address, true);
    }
}

impl View for MockRegistry {
    type V = Map<Seq<char>, bool>;

    closed spec fn view(&self) -> Map<Seq<char>, bool> {
        self.flags.view()
    }
}

/// An account with no stored flag is not verified, an account with a stored
/// flag is verified exactly when the flag is set; so a new registry reports
/// every account unverified.
pub proof fn lemma_verified_is_stored_flag(flags: Map<Seq<char>, bool>, account: Seq<char>)
    ensures
        !flags.contains_key(account) ==> !verified_in(flags, account),
        flags.contains_key(account) ==> verified_in(flags, account) == flags[account],
        !verified_in(Map::<Seq<char>, bool>::empty(), account),
{
}

/// After `register(address)`, `address` is verified, every other account
/// keeps the status it had, and registering it a second time changes
/// nothing.
pub proof fn lemma_register_verifies(flags: Map<Seq<char>, bool>, address: Seq<char>)
    ensures
        verified_in(flags.insert(address, true), address),
        forall|other: Seq<char>|
            other != address ==> #[trigger] verified_in(flags.insert(address, true), other)
                == verified_in(flags, other),
        flags.insert(address, true).insert(address, true) == flags.insert(address, true),
{
    assert(flags.insert(address, true).insert(address, true) =~= flags.insert(address, true));
}

} // verus!
