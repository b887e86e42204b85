use vstd::prelude::*;

verus! {

/// Experience needed for each level above the first.
pub const XP_PER_LEVEL: u64 = 100_000_000;

/// The highest level that the one-byte level field can hold.
pub const MAX_LEVEL: u8 = 255;

/// The level that `xp` experience corresponds to, before it is stored in a byte.
pub open spec fn level_for_xp(xp: nat) -> nat {
    xp / (XP_PER_LEVEL as nat) + 1
}

/// The level stored after experience reaches `xp`, starting from `level`:
/// it rises to the level of `xp`, capped at the largest byte, and never falls.
pub open spec fn raised_level(level: nat, xp: nat) -> nat {
    let reached = if level_for_xp(xp) > MAX_LEVEL as nat {
        MAX_LEVEL as nat
    } else {
        level_for_xp(xp)
    };
    if reached > level {
        reached
    } else {
        level
    }
}

/// Bytes of account storage for a demon whose name is `name_len` bytes long:
/// discriminator, owner key, length-prefixed name, level, experience, bump.
pub open spec fn space_for(name_len: nat) -> nat {
    8 + 32 + 4 + name_len + 1 + 8 + 1
}

/// The level that `xp` experience corresponds to.
pub fn level_of_xp(xp: u64) -> (r: u64)
    ensures
        r == level_for_xp(xp as nat),
{
    xp / XP_PER_LEVEL + 1
}

/// The level a demon holds after its experience becomes `xp`, given that it
/// held `level` before.
pub fn next_level(level: u8, xp: u64) -> (r: u8)
    ensures
        r == raised_level(level as nat, xp as nat),
        r >= level,
{
    let reached = level_of_xp(xp);
    if reached > level as u64 {
        if reached > MAX_LEVEL as u64 {
            MAX_LEVEL
        } else {
            reached as u8
        }
    } else {
        level
    }
}

/// Size of the account allocated for a demon named with `name_len` bytes.
pub fn account_space(name_len: usize) -> (r: usize)
    requires
        space_for(name_len as nat) <= usize::MAX,
    ensures
        r == space_for(name_len as nat),
{
    8 + 32 + 4 + name_len + 1 + 8 + 1
}

/// The stored level never falls, whatever the new experience.
pub proof fn lemma_level_never_falls(level: nat, xp: nat)
    ensures
        raised_level(level, xp) >= level,
{
}

} // verus!
