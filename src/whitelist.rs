use vstd::prelude::*;
use crate::errors::QstakingErrors;
use crate::identity::Identity;
use solana_program::pubkey::Pubkey;

verus! {

/// An allow-list entry. Type 0 admits a collectible by its own mint; type 1
/// admits it by one of its verified creators.
#[derive(Clone, Copy, Debug)]
pub struct Whitelist {
    pub bump: u8,
    pub whitelist_type: u8,
}

/// The program derived address of `seeds` under the program `program_id`:
/// the first off-curve SHA-256 digest found while appending bump seeds from
/// 255 down, or none when no bump yields one or the seeds break the limits
/// on their number and length. It depends on the bytes given alone.
pub uninterp spec fn program_address_of(seeds: Seq<Seq<u8>>, program_id: Seq<u8>) -> Option<Seq<u8>>;

/// The bytes of each seed.
pub open spec fn seed_bytes(seeds: Seq<Vec<u8>>) -> Seq<Seq<u8>> {
    seeds.map_values(|s: Vec<u8>| s@)
}

/// Relies on `solana_program::pubkey::Pubkey::try_find_program_address`,
/// which derives the address from the seeds and the program id alone.
#[verifier::external_body]
fn find_program_address(seeds: &Vec<Vec<u8>>, program_id: &Identity) -> (r: Option<Identity>)
    ensures
        match program_address_of(seed_bytes(seeds@), program_id.bytes@) {
            Some(a) => r matches Some(id) && id.bytes@ == a,
            None => r is None,
        },
{
    let parts: Vec<&[u8]> = seeds.iter().map(|s| s.as_slice()).collect();
    let program = Pubkey::new_from_array(program_id.bytes);
    Pubkey::try_find_program_address(&parts, &program).map(|(a, _)| Identity { bytes: a.to_bytes() })
}

/// Whether `account` is the address derived from `seeds` under `program`.
pub open spec fn derives(seeds: Seq<Seq<u8>>, program: Identity, account: Identity) -> bool {
    program_address_of(seeds, program.bytes@) matches Some(a) && a == account.bytes@
}

/// The bytes of "metadata".
pub open spec fn metadata_tag() -> Seq<u8> {
    seq![109u8, 101, 116, 97, 100, 97, 116, 97]
}

/// The bytes of "edition".
pub open spec fn edition_tag() -> Seq<u8> {
    seq![101u8, 100, 105, 116, 105, 111, 110]
}

/// The bytes of "whitelist".
pub open spec fn whitelist_tag() -> Seq<u8> {
    seq![119u8, 104, 105, 116, 101, 108, 105, 115, 116]
}

/// Seeds of a mint's metadata account under the metadata program.
pub open spec fn metadata_seeds(metadata_program: Identity, mint: Identity) -> Seq<Seq<u8>> {
    seq![metadata_tag(), metadata_program.bytes@, mint.bytes@]
}

/// Seeds of a mint's edition account under the metadata program.
pub open spec fn edition_seeds(metadata_program: Identity, mint: Identity) -> Seq<Seq<u8>> {
    seq![metadata_tag(), metadata_program.bytes@, mint.bytes@, edition_tag()]
}

/// Seeds of the allow-list entry for a reference account.
pub open spec fn whitelist_seeds(reference: Identity) -> Seq<Seq<u8>> {
    seq![whitelist_tag(), reference.bytes@]
}

fn bytes_of(tag: &[u8]) -> (v: Vec<u8>)
    ensures
        v@ == tag@,
{
    let mut v: Vec<u8> = Vec::new();
    let mut i: usize = 0;
    while i < tag.len()
        invariant
            i <= tag@.len(),
            v@ == tag@.subrange(0, i as int),
        decreases tag@.len() - i,
    {
        v.push(tag[i]);
        i = i + 1;
        assert(v@ =~= tag@.subrange(0, i as int));
    }
    assert(tag@.subrange(0, tag@.len() as int) =~= tag@);
    v
}

fn key_bytes(id: &Identity) -> (v: Vec<u8>)
    ensures
        v@ == id.bytes@,
{
    bytes_of(id.bytes.as_slice())
}

fn metadata_tag_bytes() -> (v: Vec<u8>)
    ensures
        v@ == metadata_tag(),
{
    let tag: [u8; 8] = [109u8, 101, 116, 97, 100, 97, 116, 97];
    let v = bytes_of(tag.as_slice());
    assert(v@ =~= metadata_tag());
    v
}

fn edition_tag_bytes() -> (v: Vec<u8>)
    ensures
        v@ == edition_tag(),
{
    let tag: [u8; 7] = [101u8, 100, 105, 116, 105, 111, 110];
    let v = bytes_of(tag.as_slice());
    assert(v@ =~= edition_tag());
    v
}

fn whitelist_tag_bytes() -> (v: Vec<u8>)
    ensures
        v@ == whitelist_tag(),
{
    let tag: [u8; 9] = [119u8, 104, 105, 116, 101, 108, 105, 115, 116];
    let v = bytes_of(tag.as_slice());
    assert(v@ =~= whitelist_tag());
    v
}

/// Whether `account` is the address derived from `seeds` under `program`.
fn is_derived(seeds: &Vec<Vec<u8>>, program: &Identity, account: &Identity) -> (r: bool)
    ensures
        r == derives(seed_bytes(seeds@), *program, *account),
{
    match find_program_address(seeds, program) {
        Some(a) => a.same_as(account),
        None => false,
    }
}

/// A creator listed in a collectible's metadata.
#[derive(Clone, Copy, Debug)]
pub struct Creator {
    pub address: Identity,
    /// Whether the creator signed off on the listing.
    pub verified: bool,
}

/// What the allow-list check reads of a collectible's metadata account.
#[derive(Debug)]
pub struct MetadataAccount {
    /// The account's address.
    pub key: Identity,
    /// The program that owns the account.
    pub owner: Identity,
    /// The creators the metadata lists, if it lists any.
    pub creators: Option<Vec<Creator>>,
}

/// Whether `metadata` is the genuine metadata account of `mint`: owned by
/// the metadata program and at the address derived for `mint`.
pub open spec fn genuine_metadata(mint: Identity, metadata_program: Identity, metadata: MetadataAccount) -> bool {
    metadata.owner.matches_key(metadata_program) && derives(
        metadata_seeds(metadata_program, mint),
        metadata_program,
        metadata.key,
    )
}

/// Whether a verified creator in `metadata` has the allow-list entry
/// `whitelist` under `program`.
pub open spec fn creator_listed(program: Identity, whitelist: Identity, metadata: MetadataAccount) -> bool {
    metadata.creators matches Some(cs) && exists|i: int|
        0 <= i < cs@.len() && (#[trigger] cs@[i]).verified && derives(
            whitelist_seeds(cs@[i].address),
            program,
            whitelist,
        )
}

impl Whitelist {
    /// The allow-list decision on `mint`, presented with the entry at
    /// `whitelist` and its metadata account. The metadata account must be
    /// genuine (`InvalidMetadataAccount` otherwise). An entry of type 0
    /// admits the mint it was derived for; one of type 1 admits a mint with
    /// a verified creator it was derived for. Anything else is refused with
    /// `InvalidWhitelistProof`.
    pub open spec fn decision(
        self,
        program: Identity,
        whitelist: Identity,
        mint: Identity,
        metadata_program: Identity,
        metadata: MetadataAccount,
    ) -> Result<(), QstakingErrors> {
        if !genuine_metadata(mint, metadata_program, metadata) {
            Err(QstakingErrors::InvalidMetadataAccount)
        } else if self.whitelist_type == 0 && derives(whitelist_seeds(mint), program, whitelist) {
            Ok(())
        } else if self.whitelist_type == 1 && creator_listed(program, whitelist, metadata) {
            Ok(())
        } else {
            Err(QstakingErrors::InvalidWhitelistProof)
        }
    }

    fn assert_metadata(mint: &Identity, metadata_program: &Identity, metadata: &MetadataAccount) -> (r:
        Result<(), QstakingErrors>)
        ensures
            genuine_metadata(*mint, *metadata_program, *metadata) <==> r is Ok,
            r is Err ==> r == Err::<(), QstakingErrors>(QstakingErrors::InvalidMetadataAccount),
    {
        if !metadata.owner.same_as(metadata_program) {
            return Err(QstakingErrors::InvalidMetadataAccount);
        }
        let mut seeds: Vec<Vec<u8>> = Vec::new();
        seeds.push(metadata_tag_bytes());
        seeds.push(key_bytes(metadata_program));
        seeds.push(key_bytes(mint));
        assert(seed_bytes(seeds@) =~= metadata_seeds(*metadata_program, *mint));
        if !is_derived(&seeds, metadata_program, &metadata.key) {
            return Err(QstakingErrors::InvalidMetadataAccount);
        }
        Ok(())
    }

    fn assert_whitelist(seed_account: &Identity, program_account: &Identity, whitelist: &Identity) -> (r:
        bool)
        ensures
            r == derives(whitelist_seeds(*seed_account), *program_account, *whitelist),
    {
        let mut seeds: Vec<Vec<u8>> = Vec::new();
        seeds.push(whitelist_tag_bytes());
        seeds.push(key_bytes(seed_account));
        assert(seed_bytes(seeds@) =~= whitelist_seeds(*seed_account));
        is_derived(&seeds, program_account, whitelist)
    }

    /// Checks that `mint` may take part, given the allow-list entry at
    /// `whitelist` of the program `program_account` and the collectible's
    /// metadata account; the result is exactly `decision`.
    pub fn verify(
        &self,
        program_account: &Identity,
        whitelist: &Identity,
        mint: &Identity,
        metadata_program: &Identity,
        metadata: &MetadataAccount,
    ) -> (r: Result<(), QstakingErrors>)
        ensures
            r == self.decision(*program_account, *whitelist, *mint, *metadata_program, *metadata),
    {
        match Whitelist::assert_metadata(mint, metadata_program, metadata) {
            Ok(()) => {},
            Err(e) => return Err(e),
        }
        if self.whitelist_type == 0 {
            if Whitelist::assert_whitelist(mint, program_account, whitelist) {
                return Ok(());
            }
            return Err(QstakingErrors::InvalidWhitelistProof);
        }
        if self.whitelist_type == 1 {
            match &metadata.creators {
                Some(creators) => {
                    let mut i: usize = 0;
                    while i < creators.len()
                        invariant
                            i <= creators@.len(),
                            metadata.creators == Some(*creators),
                            self.whitelist_type == 1,
                            genuine_metadata(*mint, *metadata_program, *metadata),
                            forall|j: int|
                                0 <= j < i ==> !((#[trigger] creators@[j]).verified && derives(
                                    whitelist_seeds(creators@[j].address),
                                    *program_account,
                                    *whitelist,
                                )),
                        decreases creators@.len() - i,
                    {
                        let creator = creators[i];
                        if creator.verified && Whitelist::assert_whitelist(
                            &creator.address,
                            program_account,
                            whitelist,
                        ) {
                            let ghost cs = metadata.creators->Some_0;
                            assert(cs@[i as int] == creators@[i as int]);
                            assert(cs@[i as int].verified && derives(
                                whitelist_seeds(cs@[i as int].address),
                                *program_account,
                                *whitelist,
                            ));
                            return Ok(());
                        }
                        i = i + 1;
                    }
                },
                None => {},
            }
        }
        Err(QstakingErrors::InvalidWhitelistProof)
    }
}

/// Checks that `edition` (owned by `edition_owner`) is the genuine edition
/// account of `mint`: owned by the metadata program and at the address
/// derived for `mint`. Fails with `InvalidEditionAccount` otherwise.
pub fn assert_edition_account(
    mint: &Identity,
    metadata_program: &Identity,
    edition: &Identity,
    edition_owner: &Identity,
) -> (r: Result<(), QstakingErrors>)
    ensures
        (edition_owner.matches_key(*metadata_program) && derives(
            edition_seeds(*metadata_program, *mint),
            *metadata_program,
            *edition,
        )) <==> r is Ok,
        r is Err ==> r == Err::<(), QstakingErrors>(QstakingErrors::InvalidEditionAccount),
{
    if !edition_owner.same_as(metadata_program) {
        return Err(QstakingErrors::InvalidEditionAccount);
    }
    let mut seeds: Vec<Vec<u8>> = Vec::new();
    seeds.push(metadata_tag_bytes());
    seeds.push(key_bytes(metadata_program));
    seeds.push(key_bytes(mint));
    seeds.push(edition_tag_bytes());
    assert(seed_bytes(seeds@) =~= edition_seeds(*metadata_program, *mint));
    if !is_derived(&seeds, metadata_program, edition) {
        return Err(QstakingErrors::InvalidEditionAccount);
    }
    Ok(())
}

} // verus!
