use vstd::prelude::*;

verus! {

/// Seed prefix of every demon's derived address: the bytes of `demon`.
pub const DEMON_SEED: [u8; 5] = [100, 101, 109, 111, 110];

/// The program address and canonical bump that the runtime derives from the
/// seeds `[seed, owner]` under `program_id`, or none when no bump gives an
/// address off the curve.
pub uninterp spec fn program_address_of(seed: Seq<u8>, owner: Seq<u8>, program_id: Seq<u8>) -> Option<(Seq<u8>, u8)>;

/// The derived address of the demon owned by `owner`.
pub open spec fn demon_address_of(owner: Seq<u8>, program_id: Seq<u8>) -> Option<(Seq<u8>, u8)> {
    program_address_of(DEMON_SEED@, owner, program_id)
}

/// Relies on solana_program's `Pubkey::try_find_program_address` (re-exported
/// by anchor-lang): a pure function of the seeds and the program id, which
/// returns `None` instead of panicking when no bump is viable.
#[verifier::external_body]
fn find_program_address(seed: &[u8], owner: &[u8; 32], program_id: &[u8; 32]) -> (r: Option<([u8; 32], u8)>)
    ensures
        r matches Some(p) ==> program_address_of(seed@, owner@, program_id@) == Some((p.0@, p.1)),
        r is None ==> program_address_of(seed@, owner@, program_id@) is None,
{
    let program = anchor_lang::prelude::Pubkey::new_from_array(*program_id);
    anchor_lang::prelude::Pubkey::try_find_program_address(&[seed, &owner[..]], &program)
        .map(|(address, bump)| (address.to_bytes(), bump))
}

/// The derived address and bump of the demon owned by `owner`.
pub fn demon_address(owner: &[u8; 32], program_id: &[u8; 32]) -> (r: Option<([u8; 32], u8)>)
    ensures
        r matches Some(p) ==> demon_address_of(owner@, program_id@) == Some((p.0@, p.1)),
        r is None ==> demon_address_of(owner@, program_id@) is None,
{
    let seed: [u8; 5] = DEMON_SEED;
    find_program_address(seed.as_slice(), owner, program_id)
}

/// Whether two keys hold the same bytes.
pub fn same_key(a: &[u8; 32], b: &[u8; 32]) -> (r: bool)
    ensures
        r == (a@ == b@),
{
    let mut i: usize = 0;
    while i < 32
        invariant
            i <= 32,
            a@.len() == 32,
            b@.len() == 32,
            forall|j: int| 0 <= j < i ==> a@[j] == b@[j],
        decreases 32 - i,
    {
        if a[i] != b[i] {
            return false;
        }
        i = i + 1;
    }
    assert(a@ =~= b@);
    true
}

} // verus!
