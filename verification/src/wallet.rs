//! Wallets: a signing keypair, its public address, and the deterministic
//! derivation of a keypair from a master seed and an index.
//!
//! Derivation concatenates the seed with the big-endian encoding of the
//! index and feeds the result to the keypair-from-seed routine, which takes
//! the first 32 bytes of its input as the secret key. The combined entropy
//! is distinct for distinct indices; the secret keys themselves are distinct
//! exactly when the whole index still falls inside those first 32 bytes,
//! which is the case for a 24-byte seed.

use vstd::prelude::*;

verus! {

/// The ed25519 verification key of a 32-byte secret key. Relies on the
/// signing scheme alone: the same secret always has the same public key.
pub uninterp spec fn pubkey_of(secret: Seq<u8>) -> Seq<u8>;

/// The base58 rendering (Bitcoin alphabet) of a byte string.
pub uninterp spec fn base58_of(bytes: Seq<u8>) -> Seq<char>;

/// A signing wallet: the 32-byte secret, the 32-byte public key, the
/// base58-encoded address, and bookkeeping used by the command-line tools.
pub struct Wallet {
    pub pubkey: String,
    pub pubkey_bytes: [u8; 32],
    pub secret_key: [u8; 32],
    pub tag: String,
    pub was_grinded: bool,
    pub grind_job_id: String,
}

/// The abbreviated tag of an address: first four characters, an ellipsis,
/// the last four characters; addresses shorter than that are their own tag.
pub open spec fn spec_tag_of(pubkey: Seq<char>) -> Seq<char> {
    if pubkey.len() >= 4 {
        pubkey.take(4) + "..."@ + pubkey.skip(pubkey.len() - 4)
    } else {
        pubkey
    }
}

/// A wallet is well-formed when its address fields all describe its secret.
pub open spec fn spec_wallet_wf(w: Wallet) -> bool {
    &&& w.pubkey_bytes@ == pubkey_of(w.secret_key@)
    &&& w.pubkey@ == base58_of(w.pubkey_bytes@)
    &&& w.tag@ == spec_tag_of(w.pubkey@)
}

/// Two wallets carry the same values in every field.
pub open spec fn spec_wallet_like(a: Wallet, b: Wallet) -> bool {
    &&& a.pubkey@ == b.pubkey@
    &&& a.pubkey_bytes@ == b.pubkey_bytes@
    &&& a.secret_key@ == b.secret_key@
    &&& a.tag@ == b.tag@
    &&& a.was_grinded == b.was_grinded
    &&& a.grind_job_id@ == b.grind_job_id@
}

/// Relies on `solana_sdk::signature::keypair_from_seed`: a seed of at least
/// 32 bytes yields the keypair whose secret key is the seed's first 32 bytes
/// (shorter seeds are the routine's only error). The public key is the
/// ed25519 verification key of that secret.
#[verifier::external_body]
fn keypair_from_entropy(entropy: &Vec<u8>) -> (kp: ([u8; 32], [u8; 32]))
    requires
        entropy@.len() >= 32,
    ensures
        kp.0@ == entropy@.subrange(0, 32),
        kp.1@ == pubkey_of(kp.0@),
{
    let keypair = solana_sdk::signature::keypair_from_seed(entropy)
        .expect("seed of 32 or more bytes");
    let secret: [u8; 32] = *keypair.secret_bytes();
    let pubkey: [u8; 32] = solana_sdk::signer::Signer::pubkey(&keypair).to_bytes();
    (secret, pubkey)
}

/// Relies on `solana_sdk::signature::Keypair::new`: a keypair drawn from the
/// operating system's randomness. Nothing is promised of which secret comes
/// back, only that the public half matches it.
#[verifier::external_body]
fn generate_keypair() -> (kp: ([u8; 32], [u8; 32]))
    ensures
        kp.1@ == pubkey_of(kp.0@),
{
    let keypair = solana_sdk::signature::Keypair::new();
    let secret: [u8; 32] = *keypair.secret_bytes();
    let pubkey: [u8; 32] = solana_sdk::signer::Signer::pubkey(&keypair).to_bytes();
    (secret, pubkey)
}

/// Relies on `bs58::encode`: the canonical base58 rendering of the bytes.
#[verifier::external_body]
pub fn to_base58(secret: &[u8]) -> (r: String)
    ensures
        r@ == base58_of(secret@),
{
    bs58::encode(secret).into_string()
}

/// Assemble a wallet around a keypair: render its address, derive its tag.
fn wallet_from_keypair(secret: [u8; 32], pubkey_bytes: [u8; 32], was_grinded: bool) -> (w: Wallet)
    requires
        pubkey_bytes@ == pubkey_of(secret@),
    ensures
        spec_wallet_wf(w),
        w.secret_key@ == secret@,
        w.pubkey_bytes@ == pubkey_bytes@,
        w.was_grinded == was_grinded,
        w.grind_job_id@ == Seq::<char>::empty(),
{
    let pubkey = to_base58(pubkey_bytes.as_slice());
    let tag = if pubkey.as_str().unicode_len() >= 4 {
        crate::cli::get_pubkey_preview(&pubkey)
    } else {
        pubkey.clone()
    };
    Wallet {
        pubkey,
        pubkey_bytes,
        secret_key: secret,
        tag,
        was_grinded,
        grind_job_id: String::new(),
    }
}

/// A freshly generated wallet: random secret, matching address fields. The
/// flag records whether the vanity grinder produced it.
pub fn generate_wallet(was_grinded: bool) -> (w: Wallet)
    ensures
        spec_wallet_wf(w),
        w.was_grinded == was_grinded,
{
    let (secret, pubkey_bytes) = generate_keypair();
    wallet_from_keypair(secret, pubkey_bytes, was_grinded)
}

impl Wallet {
    /// A field-for-field copy, for handing wallets out of storage.
    pub fn duplicate(&self) -> (w: Wallet)
        ensures
            spec_wallet_like(w, *self),
    {
        Wallet {
            pubkey: self.pubkey.clone(),
            pubkey_bytes: self.pubkey_bytes,
            secret_key: self.secret_key,
            tag: self.tag.clone(),
            was_grinded: self.was_grinded,
            grind_job_id: self.grind_job_id.clone(),
        }
    }
}

/// The big-endian bytes of a 64-bit index.
pub open spec fn spec_u64_be_bytes(x: u64) -> Seq<u8> {
    seq![
        ((x >> 56) & 0xff) as u8,
        ((x >> 48) & 0xff) as u8,
        ((x >> 40) & 0xff) as u8,
        ((x >> 32) & 0xff) as u8,
        ((x >> 24) & 0xff) as u8,
        ((x >> 16) & 0xff) as u8,
        ((x >> 8) & 0xff) as u8,
        (x & 0xff) as u8,
    ]
}

/// The entropy a derived wallet is built from: the master seed followed by
/// the big-endian encoding of the index.
pub open spec fn spec_entropy(seed: Seq<u8>, index: u64) -> Seq<u8> {
    seed + spec_u64_be_bytes(index)
}

/// Derive the wallet at `index` under `seed`. Deterministic: every field of
/// the result is a function of the seed and the index alone. The secret key
/// is the first 32 bytes of the combined entropy, which is what the
/// underlying keypair-from-seed routine keeps of its input.
pub fn get_wallet(seed: &Vec<u8>, index: u64) -> (w: Wallet)
    requires
        seed@.len() >= 24,
        seed@.len() + 8 <= usize::MAX,
    ensures
        spec_wallet_wf(w),
        w.secret_key@ == spec_entropy(seed@, index).subrange(0, 32),
        !w.was_grinded,
{
    let mut entropy: Vec<u8> = Vec::new();
    let mut i: usize = 0;
    let n = seed.len();
    while i < n
        invariant
            n == seed@.len(),
            i <= n,
            entropy@ == seed@.take(i as int),
        decreases n - i,
    {
        entropy.push(seed[i]);
        i = i + 1;
    }
    entropy.push(((index >> 56) & 0xff) as u8);
    entropy.push(((index >> 48) & 0xff) as u8);
    entropy.push(((index >> 40) & 0xff) as u8);
    entropy.push(((index >> 32) & 0xff) as u8);
    entropy.push(((index >> 24) & 0xff) as u8);
    entropy.push(((index >> 16) & 0xff) as u8);
    entropy.push(((index >> 8) & 0xff) as u8);
    entropy.push((index & 0xff) as u8);
    proof {
        assert(seed@.take(seed@.len() as int) =~= seed@);
        assert(entropy@ =~= spec_entropy(seed@, index));
    }
    let (secret, pubkey_bytes) = keypair_from_entropy(&entropy);
    wallet_from_keypair(secret, pubkey_bytes, false)
}

/// Derive one wallet per stored index, in order: how a wallet listing is
/// rebuilt from the master seed and the indices the store keeps.
pub fn derive_wallets(seed: &Vec<u8>, indices: &Vec<u64>) -> (r: Vec<Wallet>)
    requires
        seed@.len() >= 24,
        seed@.len() + 8 <= usize::MAX,
    ensures
        r@.len() == indices@.len(),
        forall|i: int|
            0 <= i < r@.len() ==> {
                &&& spec_wallet_wf(#[trigger] r@[i])
                &&& r@[i].secret_key@ == spec_entropy(seed@, indices@[i]).subrange(0, 32)
            },
{
    let mut r: Vec<Wallet> = Vec::new();
    let mut i: usize = 0;
    let n = indices.len();
    while i < n
        invariant
            n == indices@.len(),
            seed@.len() >= 24,
            seed@.len() + 8 <= usize::MAX,
            i <= n,
            r@.len() == i,
            forall|k: int|
                0 <= k < i ==> {
                    &&& spec_wallet_wf(#[trigger] r@[k])
                    &&& r@[k].secret_key@ == spec_entropy(seed@, indices@[k]).subrange(0, 32)
                },
        decreases n - i,
    {
        r.push(get_wallet(seed, indices[i]));
        i = i + 1;
    }
    r
}

/// Distinct indices produce distinct derivation entropy under any seed: the
/// eight trailing bytes encode the index injectively.
pub proof fn lemma_entropy_injective(seed: Seq<u8>, i: u64, j: u64)
    requires
        i != j,
    ensures
        spec_entropy(seed, i) != spec_entropy(seed, j),
{
    if spec_entropy(seed, i) == spec_entropy(seed, j) {
        let n = seed.len() as int;
        assert(spec_entropy(seed, i)[n + 0] == spec_u64_be_bytes(i)[0]);
        assert(spec_entropy(seed, i)[n + 1] == spec_u64_be_bytes(i)[1]);
        assert(spec_entropy(seed, i)[n + 2] == spec_u64_be_bytes(i)[2]);
        assert(spec_entropy(seed, i)[n + 3] == spec_u64_be_bytes(i)[3]);
        assert(spec_entropy(seed, i)[n + 4] == spec_u64_be_bytes(i)[4]);
        assert(spec_entropy(seed, i)[n + 5] == spec_u64_be_bytes(i)[5]);
        assert(spec_entropy(seed, i)[n + 6] == spec_u64_be_bytes(i)[6]);
        assert(spec_entropy(seed, i)[n + 7] == spec_u64_be_bytes(i)[7]);
        assert(((i >> 56) & 0xff) as u8 == ((j >> 56) & 0xff) as u8);
        assert(((i >> 48) & 0xff) as u8 == ((j >> 48) & 0xff) as u8);
        assert(((i >> 40) & 0xff) as u8 == ((j >> 40) & 0xff) as u8);
        assert(((i >> 32) & 0xff) as u8 == ((j >> 32) & 0xff) as u8);
        assert(((i >> 24) & 0xff) as u8 == ((j >> 24) & 0xff) as u8);
        assert(((i >> 16) & 0xff) as u8 == ((j >> 16) & 0xff) as u8);
        assert(((i >> 8) & 0xff) as u8 == ((j >> 8) & 0xff) as u8);
        assert((i & 0xff) as u8 == (j & 0xff) as u8);
        assert(i == j) by (bit_vector)
            requires
                ((i >> 56) & 0xff) as u8 == ((j >> 56) & 0xff) as u8,
                ((i >> 48) & 0xff) as u8 == ((j >> 48) & 0xff) as u8,
                ((i >> 40) & 0xff) as u8 == ((j >> 40) & 0xff) as u8,
                ((i >> 32) & 0xff) as u8 == ((j >> 32) & 0xff) as u8,
                ((i >> 24) & 0xff) as u8 == ((j >> 24) & 0xff) as u8,
                ((i >> 16) & 0xff) as u8 == ((j >> 16) & 0xff) as u8,
                ((i >> 8) & 0xff) as u8 == ((j >> 8) & 0xff) as u8,
                (i & 0xff) as u8 == (j & 0xff) as u8,
        ;
        assert(false);
    }
}

/// Under a 24-byte seed the whole index sits inside the 32 bytes the keypair
/// routine keeps, so wallets derived at distinct indices have distinct
/// secret keys. A longer seed pushes index bytes past that window: with a
/// 32-byte seed, every index yields the same secret.
pub proof fn lemma_derived_secrets_distinct(seed: Seq<u8>, i: u64, j: u64)
    requires
        seed.len() == 24,
        i != j,
    ensures
        spec_entropy(seed, i).subrange(0, 32) != spec_entropy(seed, j).subrange(0, 32),
{
    lemma_entropy_injective(seed, i, j);
    assert(spec_entropy(seed, i).subrange(0, 32) =~= spec_entropy(seed, i));
    assert(spec_entropy(seed, j).subrange(0, 32) =~= spec_entropy(seed, j));
}

} // verus!
