//! The entry points of the boundary: each builds or reads objects behind
//! handles and reports what went wrong as an [`ApiError`].
use vstd::prelude::*;
use crate::buffer::{Destructor, DynamicBuffer, DynamicBufferView};
use crate::client::{address_digits_bytes, address_form, checksummed_address, DecryptionMode, ids_unique, maps_records, parameter_choice, Client, ClientError, ServerIdAddr, ServerIdentities};
use crate::handles::{has_room, inserted, HandleTable, NULL_HANDLE};
use crate::keys::{decode_private, decode_public, ml_kem512_dk_from_seed, ml_kem512_ek_of_dk, KeyError, PrivateEncKeyMlKem512, PublicEncKeyMlKem512};

verus! {

/// Why an entry point failed.
#[derive(Debug, Clone, Copy, PartialEq, Eq, Structural)]
pub enum ApiError {
    /// A handle is null, was released, or was never handed out.
    InvalidHandle,
    /// Bytes do not have the length of an encoded key.
    WrongKeyLength,
    /// An address string is not a correctly checksummed address.
    InvalidAddress,
    /// Two server-identity records share one server id.
    DuplicateServerId,
    /// Every handle of the table has been handed out.
    HandlesExhausted,
}

/// The description of each failure.
pub open spec fn api_error_text(e: ApiError) -> Seq<char> {
    match e {
        ApiError::InvalidHandle => "invalid handle"@,
        ApiError::WrongKeyLength => "bytes do not encode a key"@,
        ApiError::InvalidAddress => "address is not checksummed"@,
        ApiError::DuplicateServerId => "some server IDs have duplicate keys"@,
        ApiError::HandlesExhausted => "no handle left"@,
    }
}

impl ApiError {
    /// A short description of the failure, for the last-error slot.
    pub fn message(&self) -> (r: &'static str)
        ensures
            r@ == api_error_text(*self),
    {
        match self {
            ApiError::InvalidHandle => "invalid handle",
            ApiError::WrongKeyLength => "bytes do not encode a key",
            ApiError::InvalidAddress => "address is not checksummed",
            ApiError::DuplicateServerId => "some server IDs have duplicate keys",
            ApiError::HandlesExhausted => "no handle left",
        }
    }
}

fn store<T>(table: &mut HandleTable<T>, value: T) -> (r: Result<u64, ApiError>)
    ensures
        r is Ok <==> has_room(*old(table)),
        r matches Ok(h) ==> inserted(*old(table), *final(table), h, value),
        r is Err ==> r == Err::<u64, ApiError>(ApiError::HandlesExhausted)
            && final(table).view() == old(table).view(),
{
    let h = table.insert(value);
    if h == NULL_HANDLE {
        Err(ApiError::HandlesExhausted)
    } else {
        Ok(h)
    }
}

/// Generates a fresh ML-KEM-512 private key and hands out its handle.
#[allow(non_snake_case)]
pub fn TKMS_ml_kem_pke_keygen(keys: &mut HandleTable<PrivateEncKeyMlKem512>) -> (r: Result<u64, ApiError>)
    ensures
        r is Ok <==> has_room(*old(keys)),
        r matches Ok(h) ==> {
            &&& inserted(*old(keys), *final(keys), h, final(keys).object(h))
            &&& final(keys).object(h).wf()
            &&& exists|d: Seq<u8>, z: Seq<u8>|
                d.len() == 32 && z.len() == 32 && final(keys).object(h)@ == ml_kem512_dk_from_seed(d, z)
        },
        r is Err ==> r == Err::<u64, ApiError>(ApiError::HandlesExhausted)
            && final(keys).view() == old(keys).view(),
{
    let sk = PrivateEncKeyMlKem512::generate();
    store(keys, sk)
}

/// Derives the public key of the private key behind `sk` and hands out its
/// handle.
#[allow(non_snake_case)]
pub fn TKMS_ml_kem_pke_get_pk(
    keys: &HandleTable<PrivateEncKeyMlKem512>,
    sk: u64,
    public_keys: &mut HandleTable<PublicEncKeyMlKem512>,
) -> (r: Result<u64, ApiError>)
    ensures
        !keys.is_live(sk) ==> r == Err::<u64, ApiError>(ApiError::InvalidHandle),
        r is Ok <==> keys.is_live(sk) && has_room(*old(public_keys)),
        r matches Ok(h) ==> {
            &&& inserted(*old(public_keys), *final(public_keys), h, final(public_keys).object(h))
            &&& final(public_keys).object(h)@ == ml_kem512_ek_of_dk(keys.object(sk)@)
        },
        r is Err ==> final(public_keys).view() == old(public_keys).view(),
{
    let k = match keys.get(sk) {
        Some(k) => k,
        None => return Err(ApiError::InvalidHandle),
    };
    let pk = k.encapsulation_key();
    store(public_keys, pk)
}

/// The serialized form of the public key behind `pk`, as an owning buffer.
#[allow(non_snake_case)]
pub fn TKMS_ml_kem_pke_pk_to_u8vec(keys: &HandleTable<PublicEncKeyMlKem512>, pk: u64) -> (r: Result<DynamicBuffer, ApiError>)
    ensures
        r is Ok <==> keys.is_live(pk),
        r is Err ==> r == Err::<DynamicBuffer, ApiError>(ApiError::InvalidHandle),
        r matches Ok(b) ==> {
            &&& b.bytes() == keys.object(pk)@
            &&& decode_public(b.bytes()) == Some(keys.object(pk)@)
            &&& b.pointer is Some
            &&& b.length == b.bytes().len()
            &&& b.destructor == Some(Destructor::FreeBoxedSlice)
        },
{
    match keys.get(pk) {
        Some(k) => Ok(DynamicBuffer::from(k.to_bytes())),
        None => Err(ApiError::InvalidHandle),
    }
}

/// The serialized form of the private key behind `sk`, as an owning buffer.
#[allow(non_snake_case)]
pub fn TKMS_ml_kem_pke_sk_to_u8vec(keys: &HandleTable<PrivateEncKeyMlKem512>, sk: u64) -> (r: Result<DynamicBuffer, ApiError>)
    ensures
        r is Ok <==> keys.is_live(sk),
        r is Err ==> r == Err::<DynamicBuffer, ApiError>(ApiError::InvalidHandle),
        r matches Ok(b) ==> {
            &&& b.bytes() == keys.object(sk)@
            &&& decode_private(b.bytes()) == Some(keys.object(sk)@)
            &&& b.pointer is Some
            &&& b.length == b.bytes().len()
            &&& b.destructor == Some(Destructor::FreeBoxedSlice)
        },
{
    match keys.get(sk) {
        Some(k) => Ok(DynamicBuffer::from(k.to_bytes())),
        None => Err(ApiError::InvalidHandle),
    }
}

/// Deserializes the viewed bytes into a public key and hands out its handle.
#[allow(non_snake_case)]
pub fn TKMS_u8vec_to_ml_kem_pke_pk(
    buffer_view: &DynamicBufferView,
    keys: &mut HandleTable<PublicEncKeyMlKem512>,
) -> (r: Result<u64, ApiError>)
    ensures
        decode_public(buffer_view.pointer@) is None ==> r == Err::<u64, ApiError>(ApiError::WrongKeyLength),
        r is Ok <==> decode_public(buffer_view.pointer@) is Some && has_room(*old(keys)),
        r matches Ok(h) ==> {
            &&& inserted(*old(keys), *final(keys), h, final(keys).object(h))
            &&& decode_public(buffer_view.pointer@) == Some(final(keys).object(h)@)
        },
        r is Err ==> final(keys).view() == old(keys).view(),
{
    match PublicEncKeyMlKem512::from_bytes(buffer_view.as_slice()) {
        Ok(k) => store(keys, k),
        Err(KeyError::WrongLength) => Err(ApiError::WrongKeyLength),
    }
}

/// Deserializes the viewed bytes into a private key and hands out its handle.
#[allow(non_snake_case)]
pub fn TKMS_u8vec_to_ml_kem_pke_sk(
    buffer_view: &DynamicBufferView,
    keys: &mut HandleTable<PrivateEncKeyMlKem512>,
) -> (r: Result<u64, ApiError>)
    ensures
        decode_private(buffer_view.pointer@) is None ==> r == Err::<u64, ApiError>(ApiError::WrongKeyLength),
        r is Ok <==> decode_private(buffer_view.pointer@) is Some && has_room(*old(keys)),
        r matches Ok(h) ==> {
            &&& inserted(*old(keys), *final(keys), h, final(keys).object(h))
            &&& decode_private(buffer_view.pointer@) == Some(final(keys).object(h)@)
        },
        r is Err ==> final(keys).view() == old(keys).view(),
{
    match PrivateEncKeyMlKem512::from_bytes(buffer_view.as_slice()) {
        Ok(k) => store(keys, k),
        Err(KeyError::WrongLength) => Err(ApiError::WrongKeyLength),
    }
}

fn client_error(e: ClientError) -> (r: ApiError)
    ensures
        e == ClientError::InvalidAddress ==> r == ApiError::InvalidAddress,
        e == ClientError::DuplicateServerId ==> r == ApiError::DuplicateServerId,
{
    match e {
        ClientError::InvalidAddress => ApiError::InvalidAddress,
        ClientError::DuplicateServerId => ApiError::DuplicateServerId,
    }
}

/// Builds the record of server `id` at the checksummed address `cs_addr` and
/// hands out its handle.
#[allow(non_snake_case)]
pub fn TKMS_new_server_id_addr(
    id: u32,
    cs_addr: &str,
    records: &mut HandleTable<ServerIdAddr>,
) -> (r: Result<u64, ApiError>)
    ensures
        checksummed_address(cs_addr@) is None ==> r == Err::<u64, ApiError>(ApiError::InvalidAddress),
        r is Ok <==> checksummed_address(cs_addr@) is Some && has_room(*old(records)),
        !address_form(cs_addr@) ==> r == Err::<u64, ApiError>(ApiError::InvalidAddress),
        r matches Ok(h) ==> {
            &&& inserted(*old(records), *final(records), h, final(records).object(h))
            &&& final(records).object(h).id == id
            &&& checksummed_address(cs_addr@) == Some(final(records).object(h).addr.bytes@)
            &&& final(records).object(h).addr.bytes@ == address_digits_bytes(cs_addr@)
        },
        r is Err ==> final(records).view() == old(records).view(),
{
    match ServerIdAddr::new(id, cs_addr) {
        Ok(rec) => store(records, rec),
        Err(e) => Err(client_error(e)),
    }
}

/// The records behind `handles`, in order, when every handle is live.
pub open spec fn records_of(table: HandleTable<ServerIdAddr>, handles: Seq<u64>) -> Seq<ServerIdAddr> {
    handles.map_values(|h: u64| table.object(h))
}

pub open spec fn all_live(table: HandleTable<ServerIdAddr>, handles: Seq<u64>) -> bool {
    forall|i: int| 0 <= i < handles.len() ==> table.is_live(#[trigger] handles[i])
}

fn collect_records(table: &HandleTable<ServerIdAddr>, handles: &Vec<u64>) -> (r: Result<Vec<ServerIdAddr>, ApiError>)
    ensures
        r is Ok <==> all_live(*table, handles@),
        r is Err ==> r == Err::<Vec<ServerIdAddr>, ApiError>(ApiError::InvalidHandle),
        r matches Ok(v) ==> v@ == records_of(*table, handles@),
{
    let mut out: Vec<ServerIdAddr> = Vec::new();
    let mut i: usize = 0;
    while i < handles.len()
        invariant
            i <= handles@.len(),
            all_live(*table, handles@.subrange(0, i as int)),
            out@ == records_of(*table, handles@.subrange(0, i as int)),
        decreases handles@.len() - i,
    {
        match table.get(handles[i]) {
            Some(rec) => {
                out.push(*rec);
            },
            None => {
                return Err(ApiError::InvalidHandle);
            },
        }
        proof {
            let pre = handles@.subrange(0, i as int);
            let post = handles@.subrange(0, i + 1);
            assert(post =~= pre.push(handles@[i as int]));
            assert(records_of(*table, post) =~= records_of(*table, pre).push(table.object(handles@[i as int])));
            assert forall|j: int| 0 <= j < post.len() implies table.is_live(#[trigger] post[j]) by {
                if j < pre.len() {
                    assert(post[j] == pre[j]);
                }
            }
        }
        i = i + 1;
    }
    assert(handles@.subrange(0, handles@.len() as int) =~= handles@);
    Ok(out)
}

/// Builds a client context from the server records behind
/// `cs_server_addrs`, the client's checksummed address and the name of its
/// parameter set, and hands out its handle.
#[allow(non_snake_case)]
pub fn TKMS_new_client(
    records: &HandleTable<ServerIdAddr>,
    cs_server_addrs: &Vec<u64>,
    cs_client_address_hex: &str,
    cs_fhe_parameter: &str,
    clients: &mut HandleTable<Client>,
) -> (r: Result<u64, ApiError>)
    ensures
        !all_live(*records, cs_server_addrs@) ==> r == Err::<u64, ApiError>(ApiError::InvalidHandle),
        all_live(*records, cs_server_addrs@) && checksummed_address(cs_client_address_hex@) is None
            ==> r == Err::<u64, ApiError>(ApiError::InvalidAddress),
        all_live(*records, cs_server_addrs@) && checksummed_address(cs_client_address_hex@) is Some
            && !ids_unique(records_of(*records, cs_server_addrs@))
            ==> r == Err::<u64, ApiError>(ApiError::DuplicateServerId),
        r is Ok <==> all_live(*records, cs_server_addrs@)
            && checksummed_address(cs_client_address_hex@) is Some
            && ids_unique(records_of(*records, cs_server_addrs@))
            && has_room(*old(clients)),
        r matches Ok(h) ==> {
            let c = final(clients).object(h);
            &&& inserted(*old(clients), *final(clients), h, c)
            &&& checksummed_address(cs_client_address_hex@) == Some(c.client_address.bytes@)
            &&& c.client_address.bytes@ == address_digits_bytes(cs_client_address_hex@)
            &&& c.client_sk is None
            &&& c.params == parameter_choice(cs_fhe_parameter@)
            &&& c.decryption_mode == DecryptionMode::NoiseFloodSmall
            &&& c.server_identities.ids().len() == cs_server_addrs@.len()
            &&& c.server_identities matches ServerIdentities::Addrs(m)
                && maps_records(m@, records_of(*records, cs_server_addrs@))
        },
        r is Err ==> final(clients).view() == old(clients).view(),
{
    let recs = match collect_records(records, cs_server_addrs) {
        Ok(v) => v,
        Err(e) => return Err(e),
    };
    match Client::new(&recs, cs_client_address_hex, cs_fhe_parameter) {
        Ok(c) => store(clients, c),
        Err(e) => Err(client_error(e)),
    }
}

/// Serializing the private key behind `sk` (which gives `bytes`) and
/// deserializing those bytes succeeds whenever the table has room; the key
/// stored under the new handle `sk2` is the same key, so both derive the same
/// public key.
pub proof fn lemma_private_key_handle_round_trip(
    keys: HandleTable<PrivateEncKeyMlKem512>,
    sk: u64,
    bytes: Seq<u8>,
    later: HandleTable<PrivateEncKeyMlKem512>,
    sk2: u64,
)
    requires
        keys.is_live(sk),
        bytes == keys.object(sk)@,
        decode_private(bytes) == Some(keys.object(sk)@),
        decode_private(bytes) == Some(later.object(sk2)@),
    ensures
        decode_private(bytes) is Some,
        later.object(sk2)@ == keys.object(sk)@,
        ml_kem512_ek_of_dk(later.object(sk2)@) == ml_kem512_ek_of_dk(keys.object(sk)@),
{
}

/// Serializing the public key behind `pk` (which gives `bytes`), deserializing
/// those bytes (which succeeds whenever the table has room) and serializing the
/// new key again gives the same bytes.
pub proof fn lemma_public_key_handle_round_trip(
    keys: HandleTable<PublicEncKeyMlKem512>,
    pk: u64,
    bytes: Seq<u8>,
    later: HandleTable<PublicEncKeyMlKem512>,
    pk2: u64,
    bytes2: Seq<u8>,
)
    requires
        keys.is_live(pk),
        bytes == keys.object(pk)@,
        decode_public(bytes) == Some(keys.object(pk)@),
        decode_public(bytes) == Some(later.object(pk2)@),
        bytes2 == later.object(pk2)@,
    ensures
        decode_public(bytes) is Some,
        bytes2 == bytes,
{
}

} // verus!
