//! Account addresses, key pairs, and the addresses that programs derive.

use vstd::prelude::*;

verus! {

/// An account address.
pub type Pubkey = [u8; 32];

/// `TokenkegQfeZyiNwAJbNbGKPFXCWuBvf9Ss623VQ5DA`
pub const SPL_TOKEN_ID: Pubkey = [
    6, 221, 246, 225, 215, 101, 161, 147, 217, 203, 225, 70, 206, 235, 121, 172, 28, 180, 133, 237,
    95, 91, 55, 145, 58, 140, 245, 133, 126, 255, 0, 169,
];

/// `TokenzQdBNbLqP5VEhdkAS6EPFLC1PHnBqCXEpPxuEb`
pub const SPL_TOKEN_2022_ID: Pubkey = [
    6, 221, 246, 225, 238, 117, 143, 222, 24, 66, 93, 188, 228, 108, 205, 218, 182, 26, 252, 77,
    131, 185, 13, 39, 254, 189, 249, 40, 216, 161, 139, 252,
];

/// `ATokenGPvbdGVxr1b2hvZbsiqW5xWH25efTNsLJA8knL`
pub const ATA_PROGRAM_ID: Pubkey = [
    140, 151, 37, 143, 78, 36, 137, 241, 187, 61, 16, 41, 20, 142, 13, 131, 11, 90, 19, 153, 218,
    255, 16, 132, 4, 142, 123, 216, 219, 233, 248, 89,
];

/// `Ed25519SigVerify111111111111111111111111111`
pub const ED25519_PROGRAM_ID: Pubkey = [
    3, 125, 70, 214, 124, 147, 251, 190, 18, 249, 66, 143, 131, 141, 64, 255, 5, 112, 116, 73, 39,
    244, 138, 100, 252, 202, 112, 68, 128, 0, 0, 0,
];

/// `Sysvar1nstructions1111111111111111111111111`
pub const INSTRUCTIONS_SYSVAR_ID: Pubkey = [
    6, 167, 213, 23, 24, 123, 209, 102, 53, 218, 212, 4, 85, 253, 194, 192, 193, 36, 198, 143, 33,
    86, 117, 165, 219, 186, 203, 95, 8, 0, 0, 0,
];

/// `BPFLoaderUpgradeab1e11111111111111111111111`
pub const BPF_LOADER_UPGRADEABLE_ID: Pubkey = [
    2, 168, 246, 145, 78, 136, 161, 176, 226, 16, 21, 62, 247, 99, 174, 43, 0, 194, 185, 61, 22,
    193, 36, 210, 192, 83, 122, 16, 4, 128, 0, 0,
];

/// `SysvarC1ock11111111111111111111111111111111`
pub const CLOCK_SYSVAR_ID: Pubkey = [
    6, 167, 213, 23, 24, 199, 116, 201, 40, 86, 99, 152, 105, 29, 94, 182, 139, 94, 184, 163, 155,
    75, 109, 92, 115, 85, 91, 33, 0, 0, 0, 0,
];

/// `SysvarEpochRewards1111111111111111111111111`
pub const EPOCH_REWARDS_SYSVAR_ID: Pubkey = [
    6, 167, 213, 23, 24, 220, 63, 238, 2, 165, 88, 191, 131, 206, 102, 225, 68, 66, 42, 28, 52, 149,
    11, 39, 193, 134, 155, 90, 156, 0, 0, 0,
];

/// `SysvarEpochSchedu1e111111111111111111111111`
pub const EPOCH_SCHEDULE_SYSVAR_ID: Pubkey = [
    6, 167, 213, 23, 24, 220, 63, 238, 2, 211, 228, 127, 1, 0, 248, 176, 84, 247, 148, 46, 96, 89,
    30, 63, 80, 135, 25, 168, 5, 0, 0, 0,
];

/// `SysvarFees111111111111111111111111111111111`
pub const FEES_SYSVAR_ID: Pubkey = [
    6, 167, 213, 23, 24, 226, 90, 141, 131, 80, 60, 37, 26, 122, 240, 113, 38, 253, 114, 0, 223,
    111, 196, 237, 82, 106, 156, 144, 0, 0, 0, 0,
];

/// `SysvarLastRestartS1ot1111111111111111111111`
pub const LAST_RESTART_SLOT_SYSVAR_ID: Pubkey = [
    6, 167, 213, 23, 25, 6, 221, 225, 205, 63, 148, 125, 202, 180, 200, 244, 244, 245, 27, 173, 15,
    152, 19, 184, 0, 210, 137, 71, 31, 192, 0, 0,
];

/// `SysvarRecentB1ockHashes11111111111111111111`
pub const RECENT_BLOCKHASHES_SYSVAR_ID: Pubkey = [
    6, 167, 213, 23, 25, 44, 86, 142, 224, 138, 132, 95, 115, 210, 151, 136, 207, 3, 92, 49, 69,
    178, 26, 179, 68, 216, 6, 46, 169, 64, 0, 0,
];

/// `SysvarRent111111111111111111111111111111111`
pub const RENT_SYSVAR_ID: Pubkey = [
    6, 167, 213, 23, 25, 44, 92, 81, 33, 140, 201, 76, 61, 74, 241, 127, 88, 218, 238, 8, 155, 161,
    253, 68, 227, 219, 217, 138, 0, 0, 0, 0,
];

/// `SysvarS1otHashes111111111111111111111111111`
pub const SLOT_HASHES_SYSVAR_ID: Pubkey = [
    6, 167, 213, 23, 25, 47, 10, 175, 198, 242, 101, 227, 251, 119, 204, 122, 218, 130, 197, 41,
    208, 190, 59, 19, 110, 45, 0, 85, 32, 0, 0, 0,
];

/// `SysvarStakeHistory1111111111111111111111111`
pub const STAKE_HISTORY_SYSVAR_ID: Pubkey = [
    6, 167, 213, 23, 25, 53, 132, 208, 254, 237, 155, 179, 67, 29, 19, 32, 107, 229, 68, 40, 27, 87,
    184, 86, 108, 197, 55, 95, 244, 0, 0, 0,
];

/// `Sysvar1111111111111111111111111111111111111`
pub const SYSVAR_OWNER_ID: Pubkey = [
    6, 167, 213, 23, 24, 117, 247, 41, 199, 61, 147, 64, 143, 33, 97, 32, 6, 126, 216, 140, 118,
    224, 140, 40, 127, 193, 148, 96, 0, 0, 0, 0,
];

/// The all-zero address: the default key, and the address of the system program.
pub const DEFAULT_PUBKEY: Pubkey = [
    0, 0, 0, 0, 0, 0, 0, 0, 0, 0, 0, 0, 0, 0, 0, 0, 0, 0, 0, 0, 0, 0, 0, 0, 0, 0, 0, 0, 0, 0, 0, 0,
];

/// `state`
pub const SEED_STATE: [u8; 5] = [115, 116, 97, 116, 101];

/// `offer`
pub const SEED_OFFER: [u8; 5] = [111, 102, 102, 101, 114];

/// `offer_vault_authority`
pub const SEED_OFFER_VAULT_AUTHORITY: [u8; 21] = [
    111, 102, 102, 101, 114, 95, 118, 97, 117, 108, 116, 95, 97, 117, 116, 104, 111, 114, 105, 116,
    121,
];

/// `permissionless-1`
pub const SEED_PERMISSIONLESS_AUTHORITY: [u8; 16] = [
    112, 101, 114, 109, 105, 115, 115, 105, 111, 110, 108, 101, 115, 115, 45, 49,
];

/// `mint_authority`
pub const SEED_MINT_AUTHORITY: [u8; 14] = [
    109, 105, 110, 116, 95, 97, 117, 116, 104, 111, 114, 105, 116, 121,
];

/// `redemption_offer`
pub const SEED_REDEMPTION_OFFER: [u8; 16] = [
    114, 101, 100, 101, 109, 112, 116, 105, 111, 110, 95, 111, 102, 102, 101, 114,
];

/// `redemption_offer_vault_authority`
pub const SEED_REDEMPTION_OFFER_VAULT_AUTHORITY: [u8; 32] = [
    114, 101, 100, 101, 109, 112, 116, 105, 111, 110, 95, 111, 102, 102, 101, 114, 95, 118, 97, 117,
    108, 116, 95, 97, 117, 116, 104, 111, 114, 105, 116, 121,
];

/// `redemption_request`
pub const SEED_REDEMPTION_REQUEST: [u8; 18] = [
    114, 101, 100, 101, 109, 112, 116, 105, 111, 110, 95, 114, 101, 113, 117, 101, 115, 116,
];

/// The address with the given bytes.
pub open spec fn key_of(bytes: Seq<u8>) -> Pubkey {
    choose|k: Pubkey| k@ == bytes
}

/// An address is determined by its bytes.
pub proof fn lemma_key_of(k: Pubkey)
    ensures
        key_of(k@) == k,
{
    let c = key_of(k@);
    assert(c@ == k@);
    lemma_same_bytes(c, k);
}

/// Two addresses with the same bytes are the same address.
pub proof fn lemma_same_bytes(a: Pubkey, b: Pubkey)
    requires
        a@ == b@,
    ensures
        a == b,
{
    assert forall|i: int| 0 <= i < 32 implies a[i] == b[i] by {
        assert(a@[i] == b@[i]);
    }
    assert(a =~= b);
}

/// Whether two addresses are equal.
pub fn same_key(a: &Pubkey, b: &Pubkey) -> (r: bool)
    ensures
        r == (*a == *b),
{
    let mut i: usize = 0;
    while i < 32
        invariant
            i <= 32,
            forall|j: int| 0 <= j < i ==> a@[j] == b@[j],
        decreases 32 - i,
    {
        if a[i] != b[i] {
            return false;
        }
        i = i + 1;
    }
    assert(*a =~= *b);
    true
}

/// The public key of an Ed25519 secret key.
pub uninterp spec fn ed25519_public_key(secret: Seq<u8>) -> Seq<u8>;

/// The Ed25519 signature of `message` under a secret key.
pub uninterp spec fn ed25519_signature(secret: Seq<u8>, message: Seq<u8>) -> Seq<u8>;

/// The address that `program` derives from `seeds`: the first one off the curve over the bump
/// seeds from 255 down, and nothing where there is none or the seeds are too many or too long.
pub uninterp spec fn program_address(seeds: Seq<Seq<u8>>, program: Seq<u8>) -> Option<Seq<u8>>;

/// The base58 text of an address.
pub uninterp spec fn base58(key: Seq<u8>) -> Seq<char>;

/// `solana_keypair::Keypair::new`: the secret bytes of a key pair drawn at random.
#[verifier::external_body]
fn random_secret() -> (r: [u8; 32]) {
    *solana_keypair::Keypair::new().secret_bytes()
}

/// `solana_keypair::Keypair::new_from_array`, then `Signer::pubkey`: the public key that belongs
/// to the 32 secret bytes. The contract names it as a function of those bytes.
#[verifier::external_body]
fn secret_to_public(secret: &[u8; 32]) -> (r: Pubkey)
    ensures
        r@ == ed25519_public_key(secret@),
{
    solana_signer::Signer::pubkey(&solana_keypair::Keypair::new_from_array(*secret)).to_bytes()
}

/// `solana_keypair::Keypair::new_from_array`, then `Signer::sign_message`. Ed25519 signing is
/// deterministic: the contract names the signature as a function of the secret and the message.
#[verifier::external_body]
fn secret_sign(secret: &[u8; 32], message: &[u8]) -> (r: [u8; 64])
    ensures
        r@ == ed25519_signature(secret@, message@),
{
    let keypair = solana_keypair::Keypair::new_from_array(*secret);
    solana_signer::Signer::sign_message(&keypair, message).into()
}

/// `solana_pubkey::Pubkey::try_find_program_address`, without the bump seed it also returns. The
/// contract names the address as a function of the seeds, one by one, and the program.
#[verifier::external_body]
fn find_address(seeds: &[&[u8]], program_id: &Pubkey) -> (r: Option<Pubkey>)
    ensures
        r is Some == program_address(seed_bytes(seeds@), program_id@) is Some,
        r is Some ==> r->0@ == program_address(seed_bytes(seeds@), program_id@)->0,
{
    let program_id = solana_pubkey::Pubkey::new_from_array(*program_id);
    solana_pubkey::Pubkey::try_find_program_address(seeds, &program_id)
        .map(|found| found.0.to_bytes())
}

/// `Display` of `solana_pubkey::Pubkey`: the address in base58, named as a function of its bytes.
#[verifier::external_body]
fn address_text(key: &Pubkey) -> (r: String)
    ensures
        r@ == base58(key@),
{
    solana_pubkey::Pubkey::new_from_array(*key).to_string()
}

/// An address in base58.
pub fn key_to_string(key: &Pubkey) -> (r: String)
    ensures
        r@ == base58(key@),
{
    address_text(key)
}

/// A key pair, held as its secret bytes.
#[derive(Clone, Copy, Debug, PartialEq, Eq)]
pub struct Keypair {
    pub secret: [u8; 32],
}

impl Keypair {
    /// A key pair drawn at random. Nothing is promised of which one it is.
    pub fn fresh() -> (r: Self) {
        Keypair { secret: random_secret() }
    }

    /// The address of this key pair.
    pub open spec fn public(self) -> Pubkey {
        key_of(ed25519_public_key(self.secret@))
    }

    /// The address of this key pair.
    pub fn pubkey(&self) -> (r: Pubkey)
        ensures
            r == self.public(),
            r@ == ed25519_public_key(self.secret@),
    {
        let key = secret_to_public(&self.secret);
        proof {
            lemma_key_of(key);
        }
        key
    }

    /// The signature of `message` under this key pair.
    pub fn sign_message(&self, message: &[u8]) -> (r: [u8; 64])
        ensures
            r@ == ed25519_signature(self.secret@, message@),
    {
        secret_sign(&self.secret, message)
    }
}

/// The bytes of each seed.
pub open spec fn seed_bytes(seeds: Seq<&[u8]>) -> Seq<Seq<u8>> {
    seeds.map_values(|seed: &[u8]| seed@)
}

/// The address that `program` derives from `seeds`.
pub open spec fn pda(seeds: Seq<Seq<u8>>, program: Pubkey) -> Option<Pubkey> {
    match program_address(seeds, program@) {
        Some(bytes) => Some(key_of(bytes)),
        None => None,
    }
}

/// The associated token address of `owner` for `mint` under `token_program`.
pub open spec fn ata(owner: Pubkey, mint: Pubkey, token_program: Pubkey) -> Option<Pubkey> {
    pda(seq![owner@, token_program@, mint@], ATA_PROGRAM_ID)
}

/// The address that `program_id` derives from `seeds`, where it has one.
pub fn scout_pda(seeds: &[&[u8]], program_id: &Pubkey) -> (r: Option<Pubkey>)
    ensures
        r == pda(seed_bytes(seeds@), *program_id),
{
    let found = find_address(seeds, program_id);
    proof {
        if found is Some {
            lemma_key_of(found->0);
        }
    }
    found
}

/// Associated-token address. Every token account of the program is constrained by its mint, its
/// authority and its token program, so each one has to stand at exactly this address.
pub fn scout_ata(owner: &Pubkey, mint: &Pubkey, token_program: &Pubkey) -> (r: Option<Pubkey>)
    ensures
        r == ata(*owner, *mint, *token_program),
{
    let seeds: [&[u8]; 3] = [owner, token_program, mint];
    assert(seed_bytes(seeds@) =~= seq![owner@, token_program@, mint@]);
    scout_pda(&seeds, &ATA_PROGRAM_ID)
}

} // verus!
