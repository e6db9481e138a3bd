use vstd::prelude::*;

verus! {

/// A 32-byte ledger address.
#[derive(Debug, Clone, Copy, PartialEq, Eq)]
pub struct Address {
    pub bytes: [u8; 32],
}

impl View for Address {
    type V = Seq<u8>;

    open spec fn view(&self) -> Seq<u8> {
        self.bytes@
    }
}

/// The address that a program derives from the seeds, if one exists.
pub uninterp spec fn program_address_of(seeds: Seq<Seq<u8>>, program: Seq<u8>) -> Option<Seq<u8>>;

/// The associated token account of a wallet for a mint.
pub uninterp spec fn associated_token_address_of(wallet: Seq<u8>, mint: Seq<u8>) -> Seq<u8>;

/// The views of a list of seeds.
pub open spec fn seeds_view(seeds: Seq<Vec<u8>>) -> Seq<Seq<u8>> {
    seeds.map_values(|s: Vec<u8>| s@)
}

impl Address {
    pub fn new(bytes: [u8; 32]) -> (r: Address)
        ensures
            r.bytes == bytes,
    {
        Address { bytes }
    }

    /// The 32 bytes as a vector.
    pub fn to_vec(&self) -> (r: Vec<u8>)
        ensures
            r@ == self@,
    {
        let mut v: Vec<u8> = Vec::new();
        let mut i: usize = 0;
        while i < 32
            invariant
                i <= 32,
                self@.len() == 32,
                v@ == self@.subrange(0, i as int),
            decreases 32 - i,
        {
            v.push(self.bytes[i]);
            assert(self@.subrange(0, i + 1) == self@.subrange(0, i as int).push(self@[i as int]));
            i = i + 1;
        }
        assert(self@.subrange(0, 32) == self@);
        v
    }
}

/// Relies on solana_sdk's `Pubkey::try_find_program_address`: the program
/// derived address for the seeds and program id, which depends on them alone;
/// `None` where no bump seed yields an address off the curve, or where the
/// seeds are too many or too long.
#[verifier::external_body]
pub(crate) fn try_find_program_address(seeds: &Vec<Vec<u8>>, program: &Address) -> (r: Option<Address>)
    ensures
        match r {
            Some(a) => program_address_of(seeds_view(seeds@), program@) == Some(a@),
            None => program_address_of(seeds_view(seeds@), program@) is None,
        },
{
    let slices: Vec<&[u8]> = seeds.iter().map(|s| s.as_slice()).collect();
    let program = solana_sdk::pubkey::Pubkey::new_from_array(program.bytes);
    solana_sdk::pubkey::Pubkey::try_find_program_address(&slices, &program)
        .map(|(a, _bump)| Address { bytes: a.to_bytes() })
}

/// Relies on `anchor_spl::associated_token::get_associated_token_address`: the
/// token account of a wallet for a mint under the token program, which depends
/// on the two addresses alone.
#[verifier::external_body]
pub(crate) fn associated_token_address(wallet: &Address, mint: &Address) -> (r: Address)
    ensures
        r@ == associated_token_address_of(wallet@, mint@),
{
    let wallet = solana_sdk::pubkey::Pubkey::new_from_array(wallet.bytes);
    let mint = solana_sdk::pubkey::Pubkey::new_from_array(mint.bytes);
    let ata = anchor_spl::associated_token::get_associated_token_address(&wallet, &mint);
    Address { bytes: ata.to_bytes() }
}

} // verus!
