//! Account addresses and their derivation from seeds.
use anchor_lang::prelude::Pubkey;
use vstd::prelude::*;
use vstd::string::StrSliceExecFns;
use vstd::string::StringSliceAdditionalSpecFns;

verus! {

/// Seed of the receipt mint's address.
pub const POS_MINT_SEED: &'static str = "pos-token";

/// Seed of the ledger state's address.
pub const STAKE_STATE_SEED: &'static str = "stake-state";

/// Seed of the vault's address.
pub const VAULT_SEED: &'static str = "vault";

/// Seed of the vault authority's address.
pub const VAULT_AUTH_SEED: &'static str = "vault-auth";

/// Seed of the mint authority's address.
pub const MINT_AUTH_SEED: &'static str = "mint-auth";

/// Every seed constant fits in a single seed.
pub proof fn lemma_seed_lengths()
    ensures
        POS_MINT_SEED.spec_bytes().len() <= 32,
        STAKE_STATE_SEED.spec_bytes().len() <= 32,
        VAULT_SEED.spec_bytes().len() <= 32,
        VAULT_AUTH_SEED.spec_bytes().len() <= 32,
        MINT_AUTH_SEED.spec_bytes().len() <= 32,
{
    broadcast use vstd::string::is_ascii_spec_bytes;
    reveal_strlit("pos-token");
    reveal_strlit("stake-state");
    reveal_strlit("vault");
    reveal_strlit("vault-auth");
    reveal_strlit("mint-auth");
    assert(vstd::string::is_ascii(POS_MINT_SEED));
    assert(vstd::string::is_ascii(STAKE_STATE_SEED));
    assert(vstd::string::is_ascii(VAULT_SEED));
    assert(vstd::string::is_ascii(VAULT_AUTH_SEED));
    assert(vstd::string::is_ascii(MINT_AUTH_SEED));
}

/// A 32-byte account address.
#[derive(Clone, Copy, Debug)]
pub struct Address {
    pub bytes: [u8; 32],
}

impl View for Address {
    type V = Seq<u8>;

    open spec fn view(&self) -> Seq<u8> {
        self.bytes@
    }
}

impl PartialEq for Address {
    fn eq(&self, o: &Address) -> (r: bool) {
        let mut i: usize = 0;
        while i < 32
            invariant
                i <= 32,
                self.bytes@.len() == 32,
                o.bytes@.len() == 32,
                forall|j: int| 0 <= j < i ==> self.bytes@[j] == o.bytes@[j],
            decreases 32 - i,
        {
            if self.bytes[i] != o.bytes[i] {
                return false;
            }
            i = i + 1;
        }
        assert(self.bytes@ =~= o.bytes@);
        true
    }
}

impl vstd::std_specs::cmp::PartialEqSpecImpl for Address {
    open spec fn obeys_eq_spec() -> bool {
        true
    }

    open spec fn eq_spec(&self, o: &Address) -> bool {
        self.bytes@ == o.bytes@
    }
}

impl Eq for Address {
}

/// The address derived from `seeds` under `program_id`, or `None` where
/// that derivation has no valid result.
pub uninterp spec fn program_address_of(seeds: Seq<Seq<u8>>, program_id: Seq<u8>) -> Option<Seq<u8>>;

/// At most sixteen seeds, none longer than thirty-two bytes.
pub open spec fn seeds_within_limits(seeds: Seq<Seq<u8>>) -> bool {
    seeds.len() <= 16 && forall|i: int| 0 <= i < seeds.len() ==> #[trigger] seeds[i].len() <= 32
}

/// The byte contents of each seed.
pub open spec fn views_of(v: Seq<Vec<u8>>) -> Seq<Seq<u8>> {
    v.map_values(|s: Vec<u8>| s@)
}

/// The bytes of an optional address.
pub open spec fn view_of_option(r: Option<Address>) -> Option<Seq<u8>> {
    match r {
        Some(a) => Some(a@),
        None => None,
    }
}

/// Relies on `Pubkey::create_program_address`: the result depends on the
/// seeds and the program id alone.
#[verifier::external_body]
fn create_program_address(seeds: &Vec<Vec<u8>>, program_id: &Address) -> (r: Option<Address>)
    requires
        seeds_within_limits(views_of(seeds@)),
    ensures
        view_of_option(r) == program_address_of(views_of(seeds@), program_id@),
{
    let slices: Vec<&[u8]> = seeds.iter().map(|s| s.as_slice()).collect();
    let id = Pubkey::new_from_array(program_id.bytes);
    Pubkey::create_program_address(&slices, &id).ok().map(|k| Address { bytes: k.to_bytes() })
}

/// `seeds` followed by the one-byte seed `nonce`.
pub open spec fn with_nonce(seeds: Seq<Seq<u8>>, nonce: u8) -> Seq<Seq<u8>> {
    seeds.push(seq![nonce])
}

/// `nonce` is the highest nonce from 255 down to 1 for which `seeds` with
/// that nonce derive an address.
pub open spec fn is_canonical_nonce(seeds: Seq<Seq<u8>>, program_id: Seq<u8>, nonce: u8) -> bool {
    &&& 1 <= nonce
    &&& program_address_of(with_nonce(seeds, nonce), program_id) is Some
    &&& forall|m: u8| nonce < m ==> #[trigger] program_address_of(with_nonce(seeds, m), program_id) is None
}

/// The address and nonce found by searching the nonces from 255 down; none
/// where no nonce derives an address.
pub open spec fn canonical_derivation(seeds: Seq<Seq<u8>>, program_id: Seq<u8>) -> Option<(Seq<u8>, u8)> {
    if exists|n: u8| is_canonical_nonce(seeds, program_id, n) {
        let n = choose|n: u8| is_canonical_nonce(seeds, program_id, n);
        Some((program_address_of(with_nonce(seeds, n), program_id).unwrap(), n))
    } else {
        None
    }
}

/// The bytes of an optional address found with its nonce.
pub open spec fn view_of_found(r: Option<(Address, u8)>) -> Option<(Seq<u8>, u8)> {
    match r {
        Some((a, n)) => Some((a@, n)),
        None => None,
    }
}

/// Relies on `Pubkey::try_find_program_address`: it tries the nonces from 255
/// down to 1, appended as a last one-byte seed, and returns the first whose
/// derivation succeeds together with that address; none where none does.
/// With at most fifteen seeds of at most thirty-two bytes, no derivation
/// fails on the seeds' size.
#[verifier::external_body]
fn try_find_program_address(seeds: &Vec<Vec<u8>>, program_id: &Address) -> (r: Option<(Address, u8)>)
    requires
        seeds@.len() <= 15,
        seeds_within_limits(views_of(seeds@)),
    ensures
        match r {
            Some((a, n)) => is_canonical_nonce(views_of(seeds@), program_id@, n)
                && program_address_of(with_nonce(views_of(seeds@), n), program_id@) == Some(a@),
            None => forall|m: u8| 1 <= m ==> #[trigger] program_address_of(with_nonce(views_of(seeds@), m), program_id@) is None,
        },
{
    let slices: Vec<&[u8]> = seeds.iter().map(|s| s.as_slice()).collect();
    let id = Pubkey::new_from_array(program_id.bytes);
    Pubkey::try_find_program_address(&slices, &id).map(|(k, n)| (Address { bytes: k.to_bytes() }, n))
}

/// At most one nonce is canonical for given seeds.
pub proof fn lemma_canonical_nonce_unique(seeds: Seq<Seq<u8>>, program_id: Seq<u8>, n1: u8, n2: u8)
    requires
        is_canonical_nonce(seeds, program_id, n1),
        is_canonical_nonce(seeds, program_id, n2),
    ensures
        n1 == n2,
{
    if n1 < n2 {
        assert(program_address_of(with_nonce(seeds, n2), program_id) is None);
    } else if n2 < n1 {
        assert(program_address_of(with_nonce(seeds, n1), program_id) is None);
    }
}

/// The seeds of a derived address: the domain seed, the context keys, and
/// the one-byte nonce last.
pub open spec fn authority_seeds(seed: Seq<u8>, context: Seq<Seq<u8>>, nonce: u8) -> Seq<Seq<u8>> {
    with_nonce(seq![seed] + context, nonce)
}

/// The address derived from a domain seed, context keys and a nonce.
pub open spec fn derived_address(seed: Seq<u8>, context: Seq<Seq<u8>>, nonce: u8, program_id: Seq<u8>) -> Option<Seq<u8>> {
    program_address_of(authority_seeds(seed, context, nonce), program_id)
}

/// The address found for a domain seed and context keys by searching the
/// nonces from 255 down, with its nonce.
pub open spec fn found_address(seed: Seq<u8>, context: Seq<Seq<u8>>, program_id: Seq<u8>) -> Option<(Seq<u8>, u8)> {
    canonical_derivation(seq![seed] + context, program_id)
}

/// The domain seed followed by the bytes of each context key.
fn seed_list(seed: &str, context: &Vec<Address>) -> (r: Vec<Vec<u8>>)
    requires
        seed.spec_bytes().len() <= 32,
    ensures
        views_of(r@) == seq![seed.spec_bytes()] + context@.map_values(|a: Address| a@),
        seeds_within_limits(views_of(r@)) || r@.len() > 16,
        r@.len() == context@.len() + 1,
{
    let mut seeds: Vec<Vec<u8>> = Vec::new();
    seeds.push(seed.as_bytes_vec());
    let mut i: usize = 0;
    while i < context.len()
        invariant
            i <= context@.len(),
            seeds@.len() == i + 1,
            views_of(seeds@) =~= seq![seed.spec_bytes()] + context@.subrange(0, i as int).map_values(|a: Address| a@),
            forall|j: int| 0 <= j < seeds@.len() ==> #[trigger] seeds@[j]@.len() <= 32,
        decreases context@.len() - i,
    {
        let k = context[i];
        let mut b: Vec<u8> = Vec::new();
        let mut j: usize = 0;
        while j < 32
            invariant
                j <= 32,
                k.bytes@.len() == 32,
                b@ =~= k.bytes@.subrange(0, j as int),
            decreases 32 - j,
        {
            b.push(k.bytes[j]);
            j = j + 1;
        }
        assert(b@ =~= k@);
        let ghost before = seeds@;
        seeds.push(b);
        assert(views_of(seeds@) =~= views_of(before).push(k@));
        assert(context@.subrange(0, i + 1).map_values(|a: Address| a@)
            =~= context@.subrange(0, i as int).map_values(|a: Address| a@).push(k@));
        i = i + 1;
    }
    assert(context@.subrange(0, context@.len() as int) =~= context@);
    seeds
}

/// Derives the address of `seed`, `context` and `nonce` under `program_id`.
pub fn derive_address(seed: &str, context: &Vec<Address>, nonce: u8, program_id: &Address) -> (r: Option<Address>)
    requires
        seed.spec_bytes().len() <= 32,
        context@.len() <= 14,
    ensures
        view_of_option(r) == derived_address(seed.spec_bytes(), context@.map_values(|a: Address| a@), nonce, program_id@),
{
    let mut seeds = seed_list(seed, context);
    let mut last: Vec<u8> = Vec::new();
    last.push(nonce);
    let ghost before = seeds@;
    seeds.push(last);
    assert(views_of(seeds@) =~= views_of(before).push(seq![nonce]));
    assert(views_of(seeds@) =~= authority_seeds(seed.spec_bytes(), context@.map_values(|a: Address| a@), nonce));
    assert forall|i: int| 0 <= i < views_of(seeds@).len() implies #[trigger] views_of(seeds@)[i].len() <= 32 by {
        if i < views_of(before).len() {
            assert(views_of(seeds@)[i] == views_of(before)[i]);
        }
    }
    create_program_address(&seeds, program_id)
}

/// Finds the address of `seed` and `context` under `program_id` by searching
/// the nonces from 255 down, and returns it with its nonce.
pub fn find_address(seed: &str, context: &Vec<Address>, program_id: &Address) -> (r: Option<(Address, u8)>)
    requires
        seed.spec_bytes().len() <= 32,
        context@.len() <= 14,
    ensures
        view_of_found(r) == found_address(seed.spec_bytes(), context@.map_values(|a: Address| a@), program_id@),
{
    let seeds = seed_list(seed, context);
    let ghost s = views_of(seeds@);
    let r = try_find_program_address(&seeds, program_id);
    proof {
        match r {
            Some((a, n)) => {
                let m = choose|m: u8| is_canonical_nonce(s, program_id@, m);
                lemma_canonical_nonce_unique(s, program_id@, n, m);
            },
            None => {
                assert forall|n: u8| !is_canonical_nonce(s, program_id@, n) by {
                    if 1 <= n {
                        assert(program_address_of(with_nonce(s, n), program_id@) is None);
                    }
                }
            },
        }
    }
    r
}

} // verus!
