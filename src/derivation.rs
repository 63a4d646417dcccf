use vstd::prelude::*;
use crate::address::Address;
use crate::state::ErrorCode;

verus! {

/// The program-derived address and bump seed that the runtime computes for a
/// seed under a program identity, or `None` where no bump gives a valid one.
pub uninterp spec fn program_address_of(seed: Seq<u8>, program_id: Seq<u8>) -> Option<(Seq<u8>, u8)>;

/// Relies on solana_program's `Pubkey::try_find_program_address` with the single
/// seed given: the result depends on the seed and the program identity alone,
/// and no address comes from a seed longer than `MAX_SEED_LEN` (32) bytes.
#[verifier::external_body]
fn find_program_address(seed: &[u8], program_id: &Address) -> (r: Option<(Address, u8)>)
    ensures
        match r {
            Some(found) => program_address_of(seed@, program_id@) == Some((found.0@, found.1)),
            None => program_address_of(seed@, program_id@).is_none(),
        },
        seed@.len() > 32 ==> r.is_none(),
{
    let program = solana_program::pubkey::Pubkey::new_from_array(program_id.bytes);
    solana_program::pubkey::Pubkey::try_find_program_address(&[seed], &program)
        .map(|(key, bump)| (Address { bytes: key.to_bytes() }, bump))
}

/// The fixed labels from which the program's own accounts are derived.
#[derive(Clone, Copy, Debug, PartialEq, Eq, Structural)]
pub enum Seed {
    /// The singleton project record: "project_state".
    ProjectState,
    /// The custody identity that collects fees: "treasury".
    Treasury,
    /// The signing capability over the project's mint: "mint_authority".
    MintAuthority,
}

impl Seed {
    /// The label's ASCII bytes.
    pub open spec fn spec_bytes(self) -> Seq<u8> {
        match self {
            Seed::ProjectState => seq![112u8, 114, 111, 106, 101, 99, 116, 95, 115, 116, 97, 116, 101],
            Seed::Treasury => seq![116u8, 114, 101, 97, 115, 117, 114, 121],
            Seed::MintAuthority => seq![109u8, 105, 110, 116, 95, 97, 117, 116, 104, 111, 114, 105, 116, 121],
        }
    }

    pub fn bytes(self) -> (r: Vec<u8>)
        ensures
            r@ == self.spec_bytes(),
    {
        let r = match self {
            Seed::ProjectState => vec![112u8, 114, 111, 106, 101, 99, 116, 95, 115, 116, 97, 116, 101],
            Seed::Treasury => vec![116u8, 114, 101, 97, 115, 117, 114, 121],
            Seed::MintAuthority => vec![109u8, 105, 110, 116, 95, 97, 117, 116, 104, 111, 114, 105, 116, 121],
        };
        assert(r@ =~= self.spec_bytes());
        r
    }
}

/// The address derived from `seed` under `program_id`, if there is one.
pub open spec fn derived_address(seed: Seed, program_id: Address) -> Option<Seq<u8>> {
    match program_address_of(seed.spec_bytes(), program_id@) {
        Some(found) => Some(found.0),
        None => None,
    }
}

/// Computes the address that `seed` derives under `program_id`, if there is one.
pub fn derive_address(seed: Seed, program_id: &Address) -> (r: Option<Address>)
    ensures
        match r {
            Some(a) => derived_address(seed, *program_id) == Some(a@),
            None => derived_address(seed, *program_id).is_none(),
        },
{
    let label = seed.bytes();
    match find_program_address(label.as_slice(), program_id) {
        Some((key, _bump)) => Some(key),
        None => None,
    }
}

/// `key` is the address derived from `seed` under `program_id`.
pub open spec fn is_derived(seed: Seed, program_id: Address, key: Address) -> bool {
    derived_address(seed, program_id) == Some(key@)
}

/// Recomputes the address of `seed` under `program_id` and checks that the
/// caller-supplied `expected` is that address. On success the bump seed that
/// lets the program sign for the address is returned; a mismatch, or a seed
/// from which no address can be derived, is `AccountMismatch`.
pub fn derive_and_verify(seed: Seed, program_id: &Address, expected: &Address) -> (r: Result<u8, ErrorCode>)
    ensures
        r.is_ok() <==> is_derived(seed, *program_id, *expected),
        r.is_ok() ==> program_address_of(seed.spec_bytes(), program_id@) == Some((expected@, r.unwrap())),
        r.is_err() ==> r == Err::<u8, ErrorCode>(ErrorCode::AccountMismatch),
{
    let label = seed.bytes();
    match find_program_address(label.as_slice(), program_id) {
        Some((key, bump)) => {
            if key == *expected {
                Ok(bump)
            } else {
                Err(ErrorCode::AccountMismatch)
            }
        },
        None => Err(ErrorCode::AccountMismatch),
    }
}

} // verus!
