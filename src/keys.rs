//! ML-KEM-512 key pairs for public-key encryption.
//!
//! A key is held as its ML-KEM encoding: 1632 bytes for the private
//! (decapsulation) key, which embeds the public one, and 800 bytes for the
//! public (encapsulation) key. That encoding is also the key's serialized form:
//! deserializing accepts exactly the bytes of the encoded length.
//!
//! No further framing is put around the encoding. tfhe's versioned
//! `safe_serialize` needs the serialized type to derive tfhe's `Versionize`
//! and serde's `Serialize`, which a type of this verified library cannot carry,
//! and the bincode wrapper `bc2wrap` is not published as a crate.
use vstd::prelude::*;
use ml_kem::kem::DecapsulationKey;
use ml_kem::{EncodedSizeUser, KemCore, MlKem512, MlKem512Params, B32};
use aes_prng::AesRng;
use rand::RngCore;

verus! {

/// Length of an encoded ML-KEM-512 decapsulation key.
pub const PRIVATE_KEY_LEN: usize = 1632;

/// Length of an encoded ML-KEM-512 encapsulation key.
pub const PUBLIC_KEY_LEN: usize = 800;

/// Why bytes were not accepted as a key.
#[derive(Debug, Clone, Copy, PartialEq, Eq, Structural)]
pub enum KeyError {
    WrongLength,
}

/// The encoded decapsulation key that ML-KEM-512 derives from the seed `(d, z)`.
pub uninterp spec fn ml_kem512_dk_from_seed(d: Seq<u8>, z: Seq<u8>) -> Seq<u8>;

/// The encoded encapsulation key that belongs to an encoded decapsulation key.
pub uninterp spec fn ml_kem512_ek_of_dk(dk: Seq<u8>) -> Seq<u8>;

/// Relies on aes_prng::AesRng::from_random_seed (an AES-based generator seeded
/// from the operating system) and its RngCore::fill_bytes, for two 32-byte
/// halves of a key-generation seed. Nothing is known of the values drawn.
#[verifier::external_body]
fn draw_seed() -> (r: ([u8; 32], [u8; 32])) {
    let mut rng = AesRng::from_random_seed();
    let mut d = [0u8; 32];
    let mut z = [0u8; 32];
    rng.fill_bytes(&mut d);
    rng.fill_bytes(&mut z);
    (d, z)
}

/// Relies on ml_kem's KemCore::generate_deterministic for MlKem512 and
/// EncodedSizeUser::as_bytes: the encoded decapsulation key is a function of
/// the seed, of the encoded size of the parameter set.
#[verifier::external_body]
fn ml_kem512_generate_deterministic(d: &[u8; 32], z: &[u8; 32]) -> (r: Vec<u8>)
    ensures
        r@ == ml_kem512_dk_from_seed(d@, z@),
        r@.len() == PRIVATE_KEY_LEN,
{
    let (dk, _ek) = MlKem512::generate_deterministic(&B32::from(*d), &B32::from(*z));
    dk.as_bytes().to_vec()
}

/// Relies on ml_kem's DecapsulationKey::from_bytes, encapsulation_key and
/// EncodedSizeUser::as_bytes for MlKem512Params: the encoded encapsulation
/// key, a function of the encoded decapsulation key, of the encoded size.
#[verifier::external_body]
fn ml_kem512_encapsulation_key(dk: &[u8]) -> (r: Vec<u8>)
    requires
        dk@.len() == PRIVATE_KEY_LEN,
    ensures
        r@ == ml_kem512_ek_of_dk(dk@),
        r@.len() == PUBLIC_KEY_LEN,
{
    let enc = ml_kem::Encoded::<DecapsulationKey<MlKem512Params>>::try_from(dk).expect("1632 bytes");
    DecapsulationKey::<MlKem512Params>::from_bytes(&enc).encapsulation_key().as_bytes().to_vec()
}

/// What deserializing `b` as a private key gives: the key with that encoding,
/// when `b` has the encoded length.
pub open spec fn decode_private(b: Seq<u8>) -> Option<Seq<u8>> {
    if b.len() == PRIVATE_KEY_LEN {
        Some(b)
    } else {
        None
    }
}

/// What deserializing `b` as a public key gives.
pub open spec fn decode_public(b: Seq<u8>) -> Option<Seq<u8>> {
    if b.len() == PUBLIC_KEY_LEN {
        Some(b)
    } else {
        None
    }
}

/// An ML-KEM-512 private (decapsulation) key.
pub struct PrivateEncKeyMlKem512 {
    bytes: Vec<u8>,
}

/// An ML-KEM-512 public (encapsulation) key.
pub struct PublicEncKeyMlKem512 {
    bytes: Vec<u8>,
}

impl PrivateEncKeyMlKem512 {
    /// The key's encoding.
    pub closed spec fn view(&self) -> Seq<u8> {
        self.bytes@
    }

    pub closed spec fn wf(&self) -> bool {
        self.bytes@.len() == PRIVATE_KEY_LEN
    }

    #[verifier::type_invariant]
    spec fn inv(&self) -> bool {
        self.wf()
    }

    /// The key that ML-KEM-512 derives from the seed `(d, z)`.
    pub fn from_seed(d: &[u8; 32], z: &[u8; 32]) -> (r: Self)
        ensures
            r.wf(),
            r@ == ml_kem512_dk_from_seed(d@, z@),
    {
        PrivateEncKeyMlKem512 { bytes: ml_kem512_generate_deterministic(d, z) }
    }

    /// A fresh key from a freshly seeded generator.
    pub fn generate() -> (r: Self)
        ensures
            r.wf(),
            exists|d: Seq<u8>, z: Seq<u8>|
                d.len() == 32 && z.len() == 32 && r@ == ml_kem512_dk_from_seed(d, z),
    {
        let (d, z) = draw_seed();
        let r = Self::from_seed(&d, &z);
        assert(d@.len() == 32 && z@.len() == 32 && r@ == ml_kem512_dk_from_seed(d@, z@));
        r
    }

    /// The public key that belongs to this private key.
    pub fn encapsulation_key(&self) -> (r: PublicEncKeyMlKem512)
        ensures
            r.wf(),
            r@ == ml_kem512_ek_of_dk(self@),
    {
        proof {
            use_type_invariant(self);
        }
        PublicEncKeyMlKem512 { bytes: ml_kem512_encapsulation_key(self.bytes.as_slice()) }
    }

    /// The serialized key.
    pub fn to_bytes(&self) -> (r: Vec<u8>)
        ensures
            r@ == self@,
            decode_private(r@) == Some(self@),
    {
        proof {
            use_type_invariant(self);
        }
        self.bytes.clone()
    }

    /// The key whose serialized form is `b`; fails unless `b` has the encoded
    /// length.
    pub fn from_bytes(b: &[u8]) -> (r: Result<Self, KeyError>)
        ensures
            r is Ok <==> decode_private(b@) is Some,
            r matches Ok(k) ==> k.wf() && decode_private(b@) == Some(k@),
            r is Err ==> r == Err::<Self, KeyError>(KeyError::WrongLength),
    {
        if b.len() != PRIVATE_KEY_LEN {
            return Err(KeyError::WrongLength);
        }
        Ok(PrivateEncKeyMlKem512 { bytes: vstd::slice::slice_to_vec(b) })
    }
}

impl PublicEncKeyMlKem512 {
    /// The key's encoding.
    pub closed spec fn view(&self) -> Seq<u8> {
        self.bytes@
    }

    pub closed spec fn wf(&self) -> bool {
        self.bytes@.len() == PUBLIC_KEY_LEN
    }

    #[verifier::type_invariant]
    spec fn inv(&self) -> bool {
        self.wf()
    }

    /// The serialized key.
    pub fn to_bytes(&self) -> (r: Vec<u8>)
        ensures
            r@ == self@,
            decode_public(r@) == Some(self@),
    {
        proof {
            use_type_invariant(self);
        }
        self.bytes.clone()
    }

    /// The key whose serialized form is `b`; fails unless `b` has the encoded
    /// length.
    pub fn from_bytes(b: &[u8]) -> (r: Result<Self, KeyError>)
        ensures
            r is Ok <==> decode_public(b@) is Some,
            r matches Ok(k) ==> k.wf() && decode_public(b@) == Some(k@),
            r is Err ==> r == Err::<Self, KeyError>(KeyError::WrongLength),
    {
        if b.len() != PUBLIC_KEY_LEN {
            return Err(KeyError::WrongLength);
        }
        Ok(PublicEncKeyMlKem512 { bytes: vstd::slice::slice_to_vec(b) })
    }
}

/// Serializing a private key and deserializing the bytes gives back a key
/// with the same public key.
pub proof fn lemma_private_key_round_trip(sk: PrivateEncKeyMlKem512)
    requires
        sk.wf(),
    ensures
        decode_private(sk@) == Some(sk@),
        ml_kem512_ek_of_dk(decode_private(sk@)->Some_0) == ml_kem512_ek_of_dk(sk@),
{
}

/// Serializing a public key, deserializing the bytes and serializing again
/// gives the same bytes.
pub proof fn lemma_public_key_round_trip(pk: PublicEncKeyMlKem512)
    requires
        pk.wf(),
    ensures
        decode_public(pk@) == Some(pk@),
{
}

} // verus!
