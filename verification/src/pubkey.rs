//! Account addresses and program-derived addresses.
use vstd::prelude::*;
use vstd::string::StrSliceExecFns;
use vstd::utf8::encode_utf8;

verus! {

/// A 32-byte account address.
#[derive(Clone, Copy)]
pub struct Pubkey {
    pub bytes: [u8; 32],
}

impl View for Pubkey {
    type V = Seq<u8>;

    open spec fn view(&self) -> Seq<u8> {
        self.bytes@
    }
}

impl Pubkey {
    /// Compares two addresses byte by byte.
    pub fn key_eq(&self, other: &Pubkey) -> (r: bool)
        ensures
            r == (self@ == other@),
    {
        let mut i: usize = 0;
        while i < 32
            invariant
                0 <= i <= 32,
                self@.len() == 32,
                other@.len() == 32,
                forall|j: int| 0 <= j < i ==> self@[j] == other@[j],
            decreases 32 - i,
        {
            if self.bytes[i] != other.bytes[i] {
                return false;
            }
            i = i + 1;
        }
        assert(self@ =~= other@);
        true
    }

    /// The address as a byte vector, as `Pubkey::to_bytes` gives it for a seed.
    pub fn to_bytes_vec(&self) -> (r: Vec<u8>)
        ensures
            r@ == self@,
    {
        let mut out: Vec<u8> = Vec::new();
        let mut i: usize = 0;
        while i < 32
            invariant
                0 <= i <= 32,
                self@.len() == 32,
                out@ == self@.subrange(0, i as int),
            decreases 32 - i,
        {
            out.push(self.bytes[i]);
            i = i + 1;
            assert(out@ =~= self@.subrange(0, i as int));
        }
        assert(self@.subrange(0, 32) =~= self@);
        out
    }
}

/// The view of an optional address.
pub open spec fn key_option_view(k: Option<Pubkey>) -> Option<Seq<u8>> {
    match k {
        Some(k) => Some(k@),
        None => None,
    }
}

/// The view of an optional address found together with its bump seed.
pub open spec fn found_view(k: Option<(Pubkey, u8)>) -> Option<(Seq<u8>, u8)> {
    match k {
        Some((k, b)) => Some((k@, b)),
        None => None,
    }
}

/// The view of a list of seeds.
pub open spec fn seeds_view(seeds: Vec<Vec<u8>>) -> Seq<Seq<u8>> {
    seeds@.map_values(|s: Vec<u8>| s@)
}

/// The seed list is refused by the address derivation: more than 16 seeds, or a seed longer
/// than 32 bytes.
pub open spec fn seeds_exceed_limits(seeds: Seq<Seq<u8>>) -> bool {
    seeds.len() > 16 || exists|i: int| 0 <= i < seeds.len() && #[trigger] seeds[i].len() > 32
}

/// The address that `create_program_address` derives from the seeds and the program id,
/// `None` where it refuses them.
pub uninterp spec fn program_address(seeds: Seq<Seq<u8>>, program_id: Seq<u8>) -> Option<Seq<u8>>;

/// The first bump seed from `bump` down to 1 whose addition to the seeds gives an address,
/// with that address; `None` where none does.
pub open spec fn bump_search(seeds: Seq<Seq<u8>>, program_id: Seq<u8>, bump: u8) -> Option<
    (Seq<u8>, u8),
>
    decreases bump,
{
    if bump == 0 {
        None
    } else {
        match program_address(seeds.push(seq![bump]), program_id) {
            Some(k) => Some((k, bump)),
            None => bump_search(seeds, program_id, (bump - 1) as u8),
        }
    }
}

/// The address and bump seed that the search for a program address finds: nothing for more
/// than 15 seeds or a seed over 32 bytes, else the first bump from 255 down to 1 that gives an
/// address.
pub open spec fn canonical_program_address(seeds: Seq<Seq<u8>>, program_id: Seq<u8>) -> Option<
    (Seq<u8>, u8),
> {
    if seeds.len() > 15 || seeds_exceed_limits(seeds) {
        None
    } else {
        bump_search(seeds, program_id, 255)
    }
}

/// Calls `Pubkey::create_program_address` of `anchor_lang` (from `solana-program`), which
/// hashes the seeds with the program id and returns the hash unless it lies on the ed25519
/// curve. Claimed: the result is a function of the seeds and the program id alone; more than
/// 16 seeds, or a seed over 32 bytes, give no address. Which hashes lie on the curve is left
/// unsaid.
#[verifier::external_body]
pub(crate) fn create_program_address(seeds: &Vec<Vec<u8>>, program_id: &Pubkey) -> (r: Option<
    Pubkey,
>)
    ensures
        key_option_view(r) == program_address(seeds_view(*seeds), program_id@),
        seeds_exceed_limits(seeds_view(*seeds)) ==> r is None,
{
    let refs: Vec<&[u8]> = seeds.iter().map(|s| s.as_slice()).collect();
    let id = anchor_lang::prelude::Pubkey::new_from_array(program_id.bytes);
    match anchor_lang::prelude::Pubkey::create_program_address(&refs, &id) {
        Ok(k) => Some(Pubkey { bytes: k.to_bytes() }),
        Err(_) => None,
    }
}

/// Calls `Pubkey::try_find_program_address` of `anchor_lang` (from `solana-program`), which
/// tries the bump seeds from 255 downwards and returns the first one for which
/// `create_program_address` of the seeds followed by the bump gives an address, and stops
/// with nothing when the seeds break the limits. Claimed: the result is that search over
/// `create_program_address`'s results, as `canonical_program_address` states it.
#[verifier::external_body]
pub(crate) fn try_find_program_address(seeds: &Vec<Vec<u8>>, program_id: &Pubkey) -> (r: Option<
    (Pubkey, u8),
>)
    ensures
        found_view(r) == canonical_program_address(seeds_view(*seeds), program_id@),
        r matches Some((k, b)) ==> program_address(
            seeds_view(*seeds).push(seq![b]),
            program_id@,
        ) == Some(k@),
        (seeds_view(*seeds).len() > 15 || seeds_exceed_limits(seeds_view(*seeds))) ==> r is None,
{
    let refs: Vec<&[u8]> = seeds.iter().map(|s| s.as_slice()).collect();
    let id = anchor_lang::prelude::Pubkey::new_from_array(program_id.bytes);
    match anchor_lang::prelude::Pubkey::try_find_program_address(&refs, &id) {
        Some((k, b)) => Some((Pubkey { bytes: k.to_bytes() }, b)),
        None => None,
    }
}

/// The little-endian bytes of the lowest `n` bytes of `x`.
pub open spec fn le_bytes(x: nat, n: nat) -> Seq<u8>
    decreases n,
{
    if n == 0 {
        Seq::empty()
    } else {
        seq![(x % 256) as u8] + le_bytes(x / 256, (n - 1) as nat)
    }
}

/// The eight little-endian bytes of `x`, as `u64::to_le_bytes` gives them.
pub fn u64_le_bytes(x: u64) -> (r: Vec<u8>)
    ensures
        r@ == le_bytes(x as nat, 8),
{
    let mut out: Vec<u8> = Vec::new();
    let mut v: u64 = x;
    let mut i: usize = 0;
    while i < 8
        invariant
            0 <= i <= 8,
            out@ + le_bytes(v as nat, (8 - i) as nat) == le_bytes(x as nat, 8),
        decreases 8 - i,
    {
        let ghost rest = le_bytes(v as nat, (8 - i) as nat);
        assert(rest == seq![(v as nat % 256) as u8] + le_bytes(v as nat / 256, (8 - i - 1) as nat));
        out.push((v % 256) as u8);
        v = v / 256;
        i = i + 1;
        assert(out@ + le_bytes(v as nat, (8 - i) as nat) =~= le_bytes(x as nat, 8));
    }
    assert(out@ + le_bytes(v as nat, 0) =~= out@);
    out
}

/// The ASCII bytes of `escrow`, the first seed of every escrow address.
pub open spec fn escrow_tag() -> Seq<u8> {
    seq![0x65u8, 0x73u8, 0x63u8, 0x72u8, 0x6fu8, 0x77u8]
}

/// The seeds from which an escrow address is derived: `escrow`, the buyer, the seed number.
pub open spec fn escrow_seeds_view(buyer: Seq<u8>, seed: u64) -> Seq<Seq<u8>> {
    seq![escrow_tag(), buyer, le_bytes(seed as nat, 8)]
}

/// The seeds with which the escrow signs for its vault: the seeds of its address followed by
/// its bump.
pub open spec fn escrow_signer_seeds_view(buyer: Seq<u8>, seed: u64, bump: u8) -> Seq<Seq<u8>> {
    escrow_seeds_view(buyer, seed).push(seq![bump])
}

/// The seeds from which a shipment address is derived: the title's UTF-8 bytes and an
/// authority.
pub open spec fn shipment_seeds_view(title: Seq<char>, authority: Seq<u8>) -> Seq<Seq<u8>> {
    seq![encode_utf8(title), authority]
}

/// Builds the seeds of an escrow address.
pub fn escrow_seeds(buyer: &Pubkey, seed: u64) -> (r: Vec<Vec<u8>>)
    ensures
        seeds_view(r) == escrow_seeds_view(buyer@, seed),
{
    let mut r: Vec<Vec<u8>> = Vec::new();
    r.push(vec![0x65u8, 0x73u8, 0x63u8, 0x72u8, 0x6fu8, 0x77u8]);
    r.push(buyer.to_bytes_vec());
    r.push(u64_le_bytes(seed));
    assert(seeds_view(r) =~= escrow_seeds_view(buyer@, seed));
    r
}

/// Builds the seeds with which the escrow signs for its vault.
pub fn escrow_signer_seeds(buyer: &Pubkey, seed: u64, bump: u8) -> (r: Vec<Vec<u8>>)
    ensures
        seeds_view(r) == escrow_signer_seeds_view(buyer@, seed, bump),
{
    with_bump(escrow_seeds(buyer, seed), bump)
}

/// Builds the seeds of a shipment address.
pub fn shipment_seeds(title: &String, authority: &Pubkey) -> (r: Vec<Vec<u8>>)
    ensures
        seeds_view(r) == shipment_seeds_view(title@, authority@),
{
    let mut r: Vec<Vec<u8>> = Vec::new();
    r.push(title.as_str().as_bytes_vec());
    r.push(authority.to_bytes_vec());
    assert(seeds_view(r) =~= shipment_seeds_view(title@, authority@));
    r
}

/// Appends the bump seed to a list of seeds.
pub fn with_bump(seeds: Vec<Vec<u8>>, bump: u8) -> (r: Vec<Vec<u8>>)
    ensures
        seeds_view(r) == seeds_view(seeds).push(seq![bump]),
{
    let mut r = seeds;
    let b: Vec<u8> = vec![bump];
    assert(b@ =~= seq![bump]);
    r.push(b);
    assert(seeds_view(r) =~= seeds_view(seeds).push(seq![bump]));
    r
}

} // verus!
