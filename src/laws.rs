use vstd::prelude::*;
use crate::address::demon_address_of;
use crate::level::{lemma_level_never_falls, raised_level};
use crate::store::{
    accounts_derived, accounts_wf, feed_error, fed, holds, index_of, lookup, sacrifice_error, spawn_error, spawned,
    DemonAccount, DemonError, FeedDemon, SacrificeDemon, SpawnDemon,
};

verus! {

/// After a successful spawn, reading the new demon's address gives a record
/// at level 1 with no experience, owned by the signer.
pub proof fn lemma_spawn_then_read(
    accts: Seq<DemonAccount>,
    a: SpawnDemon,
    name: String,
    derived: Option<(Seq<u8>, u8)>,
    bump: u8,
)
    requires
        accounts_wf(accts),
        spawn_error(accts, a, derived) is None,
        derived == Some((a.demon@, bump)),
    ensures
        lookup(accts.push(spawned(a, name, bump)), a.demon@) == Some(spawned(a, name, bump)),
        spawned(a, name, bump).demon.level == 1,
        spawned(a, name, bump).demon.xp == 0,
        spawned(a, name, bump).demon.owner == a.user,
{
    let after = accts.push(spawned(a, name, bump));
    assert(after[accts.len() as int].address@ == a.demon@);
    let k = index_of(after, a.demon@);
    if k < accts.len() {
        assert(after[k] == accts[k]);
        assert(holds(accts, a.demon@));
    }
}

/// A second spawn for the same signer, at the same address, is refused as
/// already initialized.
pub proof fn lemma_second_spawn_fails(
    accts: Seq<DemonAccount>,
    a: SpawnDemon,
    name: String,
    derived: Option<(Seq<u8>, u8)>,
    bump: u8,
    again: SpawnDemon,
)
    requires
        accounts_wf(accts),
        spawn_error(accts, a, derived) is None,
        again.user@ == a.user@,
        again.demon@ == a.demon@,
    ensures
        spawn_error(accts.push(spawned(a, name, bump)), again, derived) == Some(
            DemonError::AlreadyInitialized,
        ),
{
    let after = accts.push(spawned(a, name, bump));
    assert(after[accts.len() as int].address@ == a.demon@);
}

/// Feeding `amount` adds exactly `amount` to the experience and never lowers
/// the level.
pub proof fn lemma_feed_adds_xp(acct: DemonAccount, amount: u64)
    requires
        acct.demon.xp + amount <= u64::MAX,
    ensures
        fed(acct, amount).demon.xp == acct.demon.xp + amount,
        fed(acct, amount).demon.level >= acct.demon.level,
{
    lemma_level_never_falls(acct.demon.level as nat, (acct.demon.xp + amount) as nat);
    assert(raised_level(acct.demon.level as nat, (acct.demon.xp + amount) as nat) <= 255);
}

/// From a fresh spawn, feeding 100,000,000 lamports reaches level 2, and
/// feeding 99,999,999 stays at level 1.
pub proof fn lemma_first_level_threshold(a: SpawnDemon, name: String, bump: u8)
    ensures
        fed(spawned(a, name, bump), 100_000_000).demon.level == 2,
        fed(spawned(a, name, bump), 99_999_999).demon.level == 1,
{
}

/// A signer other than the demon's owner cannot feed it.
pub proof fn lemma_stranger_cannot_feed(accts: Seq<DemonAccount>, a: FeedDemon, amount: u64)
    requires
        lookup(accts, a.demon@) matches Some(acct) && acct.demon.owner@ != a.user@,
    ensures
        feed_error(accts, a, amount) == Some(DemonError::Unauthorized),
{
}

/// The owner's feed whose transfer their balance cannot cover is refused for
/// insufficient funds; `feed_demon` leaves the store as it was on any refusal.
pub proof fn lemma_unfunded_feed_fails(accts: Seq<DemonAccount>, a: FeedDemon, amount: u64)
    requires
        lookup(accts, a.demon@) matches Some(acct) && acct.demon.owner@ == a.user@,
        amount > a.user_lamports,
    ensures
        feed_error(accts, a, amount) == Some(DemonError::InsufficientFunds),
{
}

/// After a successful sacrifice, nothing is left at the demon's address.
pub proof fn lemma_sacrifice_closes(accts: Seq<DemonAccount>, a: SacrificeDemon)
    requires
        accounts_wf(accts),
        sacrifice_error(accts, a) is None,
    ensures
        lookup(accts.remove(index_of(accts, a.demon@)), a.demon@) is None,
{
    let i = index_of(accts, a.demon@);
    let after = accts.remove(i);
    if holds(after, a.demon@) {
        let k = index_of(after, a.demon@);
        let kk = if k < i { k } else { k + 1 };
        assert(after[k] == accts[kk]);
        if kk < i {
            assert(accts[kk].address@ != accts[i].address@);
        } else {
            assert(accts[i].address@ != accts[kk].address@);
        }
    }
}

/// No owner has two demons: two accounts with the same owner are one.
pub proof fn lemma_one_demon_per_owner(program: Seq<u8>, accts: Seq<DemonAccount>, i: int, j: int)
    requires
        accounts_wf(accts),
        accounts_derived(program, accts),
        0 <= i < accts.len(),
        0 <= j < accts.len(),
        accts[i].demon.owner@ == accts[j].demon.owner@,
    ensures
        i == j,
{
    assert(demon_address_of(accts[i].demon.owner@, program) == Some((accts[i].address@, accts[i].demon.bump)));
    assert(demon_address_of(accts[j].demon.owner@, program) == Some((accts[j].address@, accts[j].demon.bump)));
    if i < j {
        assert(accts[i].address@ != accts[j].address@);
    } else if j < i {
        assert(accts[j].address@ != accts[i].address@);
    }
}

} // verus!
