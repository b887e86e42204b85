use vstd::prelude::*;
use crate::address::{demon_address, demon_address_of, same_key};
use crate::level::{next_level, raised_level};

verus! {

/// The record that a demon account holds.
pub struct Demon {
    pub owner: [u8; 32],
    pub name: String,
    pub level: u8,
    pub xp: u64,
    pub bump: u8,
}

impl Demon {
    /// A new demon of `owner` named `name`, at level 1 with no experience.
    pub fn spawn(owner: [u8; 32], name: String, bump: u8) -> (r: Demon)
        ensures
            r == (Demon { owner, name, level: 1, xp: 0, bump }),
    {
        Demon { owner, name, level: 1, xp: 0, bump }
    }

    /// Adds `amount` to the experience and raises the level to match; refused,
    /// with nothing changed, when the experience would pass the largest `u64`.
    pub fn gain_xp(&mut self, amount: u64) -> (r: Result<(), DemonError>)
        ensures
            r == (if old(self).xp + amount <= u64::MAX {
                Ok::<(), DemonError>(())
            } else {
                Err(DemonError::Overflow)
            }),
            r is Err ==> *final(self) == *old(self),
            r is Ok ==> final(self).xp == old(self).xp + amount,
            r is Ok ==> final(self).level == raised_level(old(self).level as nat, final(self).xp as nat),
            final(self).owner == old(self).owner,
            final(self).name == old(self).name,
            final(self).bump == old(self).bump,
    {
        if self.xp > u64::MAX - amount {
            return Err(DemonError::Overflow);
        }
        self.xp = self.xp + amount;
        self.level = next_level(self.level, self.xp);
        Ok(())
    }
}

/// A demon record at its derived address, with the lamports the account holds.
pub struct DemonAccount {
    pub address: [u8; 32],
    pub lamports: u64,
    pub demon: Demon,
}

/// Why an instruction was rejected; a rejected instruction changes nothing.
#[derive(Clone, Copy, Debug, PartialEq, Eq, Structural)]
pub enum DemonError {
    /// A demon already exists at the derived address.
    AlreadyInitialized,
    /// The demon address given is not the one derived from the signer's key.
    AddressMismatch,
    /// The signer is not the demon's owner.
    Unauthorized,
    /// The signer's balance does not cover the lamports asked for.
    InsufficientFunds,
    /// No demon account exists at the address given.
    AccountNotFound,
    /// Experience or the account's balance would pass the largest `u64`.
    Overflow,
}

/// The accounts of a spawn instruction: the new demon's address and the
/// signer, with the signer's balance and the rent the new account needs.
pub struct SpawnDemon {
    pub demon: [u8; 32],
    pub user: [u8; 32],
    pub user_lamports: u64,
    pub rent: u64,
}

/// The accounts of a feed instruction: the demon's address and the signer,
/// with the signer's balance.
pub struct FeedDemon {
    pub demon: [u8; 32],
    pub user: [u8; 32],
    pub user_lamports: u64,
}

/// The accounts of a sacrifice instruction: the demon's address and the signer.
pub struct SacrificeDemon {
    pub demon: [u8; 32],
    pub user: [u8; 32],
}

/// Whether some account of `accts` sits at `addr`.
pub open spec fn holds(accts: Seq<DemonAccount>, addr: Seq<u8>) -> bool {
    exists|i: int| 0 <= i < accts.len() && #[trigger] accts[i].address@ == addr
}

/// The position of the account at `addr`, where there is one.
pub open spec fn index_of(accts: Seq<DemonAccount>, addr: Seq<u8>) -> int {
    choose|i: int| 0 <= i < accts.len() && #[trigger] accts[i].address@ == addr
}

/// What reading `addr` gives: the account there, or none.
pub open spec fn lookup(accts: Seq<DemonAccount>, addr: Seq<u8>) -> Option<DemonAccount> {
    if holds(accts, addr) {
        Some(accts[index_of(accts, addr)])
    } else {
        None
    }
}

/// No two accounts share an address.
pub open spec fn accounts_wf(accts: Seq<DemonAccount>) -> bool {
    forall|i: int, j: int|
        0 <= i < j < accts.len() ==> #[trigger] accts[i].address@ != #[trigger] accts[j].address@
}

/// Each account sits at the address derived from its owner's key, with the
/// bump of that derivation.
pub open spec fn accounts_derived(program: Seq<u8>, accts: Seq<DemonAccount>) -> bool {
    forall|i: int|
        0 <= i < accts.len() ==> demon_address_of(#[trigger] accts[i].demon.owner@, program) == Some(
            (accts[i].address@, accts[i].demon.bump),
        )
}

/// The view of a derived address and bump.
pub open spec fn derived_view(d: Option<([u8; 32], u8)>) -> Option<(Seq<u8>, u8)> {
    match d {
        Some(p) => Some((p.0@, p.1)),
        None => None,
    }
}

/// The account that a successful spawn creates, with the derivation's bump.
pub open spec fn spawned(a: SpawnDemon, name: String, bump: u8) -> DemonAccount {
    DemonAccount {
        address: a.demon,
        lamports: a.rent,
        demon: Demon { owner: a.user, name: name, level: 1, xp: 0, bump: bump },
    }
}

/// The error a spawn meets, if any, checked in this order, where `derived` is
/// the address and bump derived from the signer's key.
pub open spec fn spawn_error(accts: Seq<DemonAccount>, a: SpawnDemon, derived: Option<(Seq<u8>, u8)>) -> Option<DemonError> {
    match derived {
        None => Some(DemonError::AddressMismatch),
        Some(d) => if d.0 != a.demon@ {
            Some(DemonError::AddressMismatch)
        } else if holds(accts, a.demon@) {
            Some(DemonError::AlreadyInitialized)
        } else if a.rent > a.user_lamports {
            Some(DemonError::InsufficientFunds)
        } else {
            None
        },
    }
}

/// The bump of a derivation, where there is one.
pub open spec fn bump_of(derived: Option<(Seq<u8>, u8)>) -> u8 {
    match derived {
        Some(d) => d.1,
        None => 0,
    }
}

/// The account after `amount` lamports are fed to it.
pub open spec fn fed(acct: DemonAccount, amount: u64) -> DemonAccount {
    DemonAccount {
        address: acct.address,
        lamports: (acct.lamports + amount) as u64,
        demon: Demon {
            owner: acct.demon.owner,
            name: acct.demon.name,
            level: raised_level(acct.demon.level as nat, (acct.demon.xp + amount) as nat) as u8,
            xp: (acct.demon.xp + amount) as u64,
            bump: acct.demon.bump,
        },
    }
}

/// The error a feed meets, if any, checked in this order.
pub open spec fn feed_error(accts: Seq<DemonAccount>, a: FeedDemon, amount: u64) -> Option<DemonError> {
    match lookup(accts, a.demon@) {
        None => Some(DemonError::AccountNotFound),
        Some(acct) => if acct.demon.owner@ != a.user@ {
            Some(DemonError::Unauthorized)
        } else if amount > a.user_lamports {
            Some(DemonError::InsufficientFunds)
        } else if acct.demon.xp + amount > u64::MAX || acct.lamports + amount > u64::MAX {
            Some(DemonError::Overflow)
        } else {
            None
        },
    }
}

/// The error a sacrifice meets, if any, checked in this order.
pub open spec fn sacrifice_error(accts: Seq<DemonAccount>, a: SacrificeDemon) -> Option<DemonError> {
    match lookup(accts, a.demon@) {
        None => Some(DemonError::AccountNotFound),
        Some(acct) => if acct.demon.owner@ != a.user@ {
            Some(DemonError::Unauthorized)
        } else {
            None
        },
    }
}

/// The demon accounts of one program, each at its derived address.
pub struct DemonStore {
    program_id: [u8; 32],
    accounts: Vec<DemonAccount>,
}

impl DemonStore {
    /// The id of the program whose accounts these are.
    pub closed spec fn program(&self) -> Seq<u8> {
        self.program_id@
    }

    /// The accounts, in order of creation.
    pub closed spec fn accounts(&self) -> Seq<DemonAccount> {
        self.accounts@
    }

    /// No two accounts share an address.
    pub open spec fn wf(&self) -> bool {
        accounts_wf(self.accounts())
    }

    /// Each account sits at the address derived from its owner's key.
    pub open spec fn derived(&self) -> bool {
        accounts_derived(self.program(), self.accounts())
    }

    /// An empty store for the program `program_id`.
    pub fn new(program_id: [u8; 32]) -> (r: Self)
        ensures
            r.wf(),
            r.derived(),
            r.program() == program_id@,
            r.accounts().len() == 0,
    {
        DemonStore { program_id, accounts: Vec::new() }
    }

    /// The id of the program whose accounts these are.
    pub fn program_id(&self) -> (r: [u8; 32])
        ensures
            r@ == self.program(),
    {
        self.program_id
    }

    /// The number of demon accounts.
    pub fn len(&self) -> (r: usize)
        ensures
            r == self.accounts().len(),
    {
        self.accounts.len()
    }

    fn find(&self, address: &[u8; 32]) -> (r: Option<usize>)
        requires
            self.wf(),
        ensures
            r is None <==> !holds(self.accounts(), address@),
            r matches Some(i) ==> i == index_of(self.accounts(), address@) && i < self.accounts().len()
                && self.accounts()[i as int].address@ == address@,
    {
        let mut i: usize = 0;
        while i < self.accounts.len()
            invariant
                self.wf(),
                i <= self.accounts@.len(),
                forall|j: int| 0 <= j < i ==> self.accounts@[j].address@ != address@,
            decreases self.accounts@.len() - i,
        {
            if same_key(&self.accounts[i].address, address) {
                let ghost k = index_of(self.accounts@, address@);
                assert(self.accounts@[i as int].address@ == address@);
                assert(self.accounts@[k].address@ == address@);
                assert(k == i as int) by {
                    if k < i as int {
                        assert(self.accounts()[k].address@ != self.accounts()[i as int].address@);
                    } else if k > i as int {
                        assert(self.accounts()[i as int].address@ != self.accounts()[k].address@);
                    }
                }
                return Some(i);
            }
            i = i + 1;
        }
        None
    }

    /// The demon account at `address`, or none when no account is there.
    pub fn get(&self, address: &[u8; 32]) -> (r: Option<&DemonAccount>)
        requires
            self.wf(),
        ensures
            r is None <==> lookup(self.accounts(), address@) is None,
            r matches Some(acct) ==> lookup(self.accounts(), address@) == Some(*acct),
    {
        match self.find(address) {
            Some(i) => Some(&self.accounts[i]),
            None => None,
        }
    }
}

} // verus!

verus! {

/// Creates the demon of the signer `accounts.user`, named `name`, at the
/// address derived from the signer's key, funded with the rent it needs.
pub fn spawn_demon(store: &mut DemonStore, accounts: &SpawnDemon, name: String) -> (r: Result<(), DemonError>)
    requires
        old(store).wf(),
    ensures
        final(store).wf(),
        old(store).derived() ==> final(store).derived(),
        final(store).program() == old(store).program(),
        r == (match spawn_error(old(store).accounts(), *accounts, demon_address_of(accounts.user@, old(store).program())) {
            Some(e) => Err(e),
            None => Ok(()),
        }),
        r is Ok ==> final(store).accounts() == old(store).accounts().push(
            spawned(*accounts, name, bump_of(demon_address_of(accounts.user@, old(store).program()))),
        ),
        r is Err ==> final(store).accounts() == old(store).accounts(),
{
    let derived = demon_address(&accounts.user, &store.program_id);
    spawn_demon_at(store, accounts, name, derived)
}

/// Creates the demon of the signer `accounts.user`, named `name`, where
/// `derived` is the address and bump derived from the signer's key.
pub fn spawn_demon_at(
    store: &mut DemonStore,
    accounts: &SpawnDemon,
    name: String,
    derived: Option<([u8; 32], u8)>,
) -> (r: Result<(), DemonError>)
    requires
        old(store).wf(),
    ensures
        final(store).wf(),
        old(store).derived() && derived_view(derived) == demon_address_of(accounts.user@, old(store).program())
            ==> final(store).derived(),
        final(store).program() == old(store).program(),
        r == (match spawn_error(old(store).accounts(), *accounts, derived_view(derived)) {
            Some(e) => Err(e),
            None => Ok(()),
        }),
        r is Ok ==> final(store).accounts() == old(store).accounts().push(
            spawned(*accounts, name, bump_of(derived_view(derived))),
        ),
        r is Err ==> final(store).accounts() == old(store).accounts(),
{
    let (address, bump) = match derived {
        Some(d) => d,
        None => {
            return Err(DemonError::AddressMismatch);
        },
    };
    if !same_key(&address, &accounts.demon) {
        return Err(DemonError::AddressMismatch);
    }
    if store.find(&address).is_some() {
        return Err(DemonError::AlreadyInitialized);
    }
    if accounts.rent > accounts.user_lamports {
        return Err(DemonError::InsufficientFunds);
    }
    let ghost before = store.accounts@;
    let demon = Demon::spawn(accounts.user, name, bump);
    store.accounts.push(DemonAccount { address: accounts.demon, lamports: accounts.rent, demon });
    assert forall|i: int, j: int|
        0 <= i < j < store.accounts@.len() implies #[trigger] store.accounts@[i].address@
            != #[trigger] store.accounts@[j].address@ by {
        if j == before.len() {
            assert(before[i].address@ == store.accounts@[i].address@);
        }
    }
    assert(store.wf());
    Ok(())
}

} // verus!

verus! {

/// Moves `amount` lamports from the signer into its demon's account and adds
/// them to the demon's experience, raising its level to match; all or nothing.
pub fn feed_demon(store: &mut DemonStore, accounts: &FeedDemon, amount: u64) -> (r: Result<(), DemonError>)
    requires
        old(store).wf(),
    ensures
        final(store).wf(),
        old(store).derived() ==> final(store).derived(),
        final(store).program() == old(store).program(),
        r == (match feed_error(old(store).accounts(), *accounts, amount) {
            Some(e) => Err(e),
            None => Ok(()),
        }),
        r is Ok ==> final(store).accounts() == old(store).accounts().update(
            index_of(old(store).accounts(), accounts.demon@),
            fed(old(store).accounts()[index_of(old(store).accounts(), accounts.demon@)], amount),
        ),
        r is Err ==> final(store).accounts() == old(store).accounts(),
{
    let i = match store.find(&accounts.demon) {
        Some(i) => i,
        None => {
            return Err(DemonError::AccountNotFound);
        },
    };
    if !same_key(&store.accounts[i].demon.owner, &accounts.user) {
        return Err(DemonError::Unauthorized);
    }
    if amount > accounts.user_lamports {
        return Err(DemonError::InsufficientFunds);
    }
    if store.accounts[i].demon.xp > u64::MAX - amount || store.accounts[i].lamports > u64::MAX - amount {
        return Err(DemonError::Overflow);
    }
    let ghost before = store.accounts@;
    let mut acct = store.accounts.remove(i);
    acct.lamports = acct.lamports + amount;
    let gained = acct.demon.gain_xp(amount);
    assert(gained is Ok);
    store.accounts.insert(i, acct);
    assert(store.accounts@ =~= before.update(i as int, fed(before[i as int], amount)));
    assert forall|j: int, k: int|
        0 <= j < k < store.accounts@.len() implies #[trigger] store.accounts@[j].address@
            != #[trigger] store.accounts@[k].address@ by {
        assert(before[j].address@ == store.accounts@[j].address@);
        assert(before[k].address@ == store.accounts@[k].address@);
    }
    assert forall|j: int| old(store).derived() && 0 <= j < store.accounts@.len() implies demon_address_of(
        #[trigger] store.accounts@[j].demon.owner@,
        store.program_id@,
    ) == Some((store.accounts@[j].address@, store.accounts@[j].demon.bump)) by {
        assert(before[j].address@ == store.accounts@[j].address@);
        assert(before[j].demon.owner@ == store.accounts@[j].demon.owner@);
    }
    assert(store.wf());
    Ok(())
}

/// Closes the signer's demon account and hands back the lamports it held,
/// which go to the owner.
pub fn sacrifice_demon(store: &mut DemonStore, accounts: &SacrificeDemon) -> (r: Result<u64, DemonError>)
    requires
        old(store).wf(),
    ensures
        final(store).wf(),
        old(store).derived() ==> final(store).derived(),
        final(store).program() == old(store).program(),
        r == (match sacrifice_error(old(store).accounts(), *accounts) {
            Some(e) => Err(e),
            None => Ok(old(store).accounts()[index_of(old(store).accounts(), accounts.demon@)].lamports),
        }),
        r is Ok ==> final(store).accounts() == old(store).accounts().remove(
            index_of(old(store).accounts(), accounts.demon@),
        ),
        r is Err ==> final(store).accounts() == old(store).accounts(),
{
    let i = match store.find(&accounts.demon) {
        Some(i) => i,
        None => {
            return Err(DemonError::AccountNotFound);
        },
    };
    if !same_key(&store.accounts[i].demon.owner, &accounts.user) {
        return Err(DemonError::Unauthorized);
    }
    let ghost before = store.accounts@;
    let acct = store.accounts.remove(i);
    assert forall|j: int, k: int|
        0 <= j < k < store.accounts@.len() implies #[trigger] store.accounts@[j].address@
            != #[trigger] store.accounts@[k].address@ by {
        let jj = if j < i { j } else { j + 1 };
        let kk = if k < i { k } else { k + 1 };
        assert(before[jj].address@ != before[kk].address@);
    }
    assert forall|j: int| old(store).derived() && 0 <= j < store.accounts@.len() implies demon_address_of(
        #[trigger] store.accounts@[j].demon.owner@,
        store.program_id@,
    ) == Some((store.accounts@[j].address@, store.accounts@[j].demon.bump)) by {
        let jj = if j < i { j } else { j + 1 };
        assert(before[jj] == store.accounts@[j]);
    }
    assert(store.wf());
    Ok(acct.lamports)
}

} // verus!
