use vstd::prelude::*;

verus! {

/// The address of this program: the identity under which vault addresses are
/// derived.
pub const PROGRAM_ID: [u8; 32] = [
    133, 185, 244, 88, 137, 167, 160, 195, 248, 165, 51, 242, 150, 38, 249, 13,
    0, 187, 38, 4, 58, 183, 176, 172, 11, 239, 127, 212, 204, 19, 51, 63,
];

/// The domain tag that leads the seeds of every vault: the bytes of "vault".
pub open spec fn vault_tag() -> Seq<u8> {
    seq![118u8, 97u8, 117u8, 108u8, 116u8]
}

/// The address of the system program, which owns every plain balance-holding
/// account: thirty-two zero bytes.
pub open spec fn system_program_bytes() -> Seq<u8> {
    Seq::new(32, |_i: int| 0u8)
}

/// The program address, with its bump byte, that a search over the given seeds
/// finds under the given program; `None` where the search finds none.
pub uninterp spec fn found_program_address(seeds: Seq<Seq<u8>>, program_id: Seq<u8>) -> Option<(Seq<u8>, u8)>;

/// The seeds a vault is derived from: the domain tag and the owner's address.
pub open spec fn vault_seeds(owner: Seq<u8>) -> Seq<Seq<u8>> {
    seq![vault_tag(), owner]
}

/// The view of a derivation's result: an address and its bump byte, or none.
pub open spec fn derivation_view(d: Option<([u8; 32], u8)>) -> Option<(Seq<u8>, u8)> {
    match d {
        Some((a, b)) => Some((a@, b)),
        None => None,
    }
}

/// The canonical vault of an owner, with its bump byte.
pub open spec fn vault_derivation(owner: Seq<u8>) -> Option<(Seq<u8>, u8)> {
    found_program_address(vault_seeds(owner), PROGRAM_ID@)
}

/// Relies on `solana_address::Address::try_find_program_address`: it returns
/// the first valid program address, over bumps from 255 down, for the seeds
/// under the program, or `None`; the result depends on its arguments alone.
#[verifier::external_body]
fn try_find_program_address(tag: &[u8], owner: &[u8; 32], program_id: &[u8; 32]) -> (r: Option<([u8; 32], u8)>)
    ensures
        match r {
            Some((a, b)) => found_program_address(seq![tag@, owner@], program_id@) == Some((a@, b)),
            None => found_program_address(seq![tag@, owner@], program_id@) is None,
        },
{
    let program = solana_address::Address::new_from_array(*program_id);
    solana_address::Address::try_find_program_address(&[tag, owner.as_ref()], &program)
        .map(|(a, b)| (a.to_bytes(), b))
}

/// Relies on `pinocchio_system::ID`, declared from the base-58 text
/// "11111111111111111111111111111111", which is thirty-two zero bytes.
#[verifier::external_body]
fn system_program_id() -> (r: [u8; 32])
    ensures
        r@ == system_program_bytes(),
{
    pinocchio_system::ID.to_bytes()
}

/// The address of the system program.
pub fn system_program_address() -> (r: [u8; 32])
    ensures
        r@ == system_program_bytes(),
{
    system_program_id()
}

/// Whether two addresses are equal, byte for byte.
pub fn addresses_equal(a: &[u8; 32], b: &[u8; 32]) -> (r: bool)
    ensures
        r == (a@ == b@),
{
    let mut i: usize = 0;
    while i < 32
        invariant
            0 <= i <= 32,
            a@.len() == 32,
            b@.len() == 32,
            forall|j: int| 0 <= j < i ==> a@[j] == b@[j],
        decreases 32 - i,
    {
        if a[i] != b[i] {
            return false;
        }
        i = i + 1;
    }
    assert(a@ =~= b@);
    true
}

/// Derives the canonical vault of `owner`: its address and bump byte, or `None`
/// where no program address exists for the owner's seeds.
pub fn find_vault_address(owner: &[u8; 32]) -> (r: Option<([u8; 32], u8)>)
    ensures
        derivation_view(r) == vault_derivation(owner@),
{
    let tag: [u8; 5] = [118, 97, 117, 108, 116];
    assert(tag@ =~= vault_tag());
    let program_id: [u8; 32] = PROGRAM_ID;
    try_find_program_address(&tag, owner, &program_id)
}

/// Deriving the vault of one owner twice gives the same address and bump.
pub proof fn lemma_vault_derivation_deterministic(first: Seq<u8>, second: Seq<u8>)
    requires
        first == second,
    ensures
        vault_derivation(first) == vault_derivation(second),
{
}

} // verus!
