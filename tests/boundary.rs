use kms_c_api::api::{
    ApiError, TKMS_ml_kem_pke_get_pk, TKMS_ml_kem_pke_keygen, TKMS_ml_kem_pke_pk_to_u8vec,
    TKMS_ml_kem_pke_sk_to_u8vec, TKMS_new_client, TKMS_new_server_id_addr,
    TKMS_u8vec_to_ml_kem_pke_pk, TKMS_u8vec_to_ml_kem_pke_sk,
};
use kms_c_api::buffer::{
    destroy_dynamic_buffer, finish_release, release_action, ReleaseAction, free_u8_ptr_built_from_vec_u8, DestroyError, Destructor, DynamicBuffer,
    DynamicBufferView,
};
use kms_c_api::client::{Client, ClientError, DecryptionMode, FheParameter, ServerIdAddr, ServerIdentities};
use kms_c_api::error::{finish_call, panic_payload_to_error, replace_last_error_with_panic_payload, LastError};
use kms_c_api::handles::{HandleTable, NULL_HANDLE};
use kms_c_api::keys::{KeyError, PrivateEncKeyMlKem512, PublicEncKeyMlKem512, PRIVATE_KEY_LEN, PUBLIC_KEY_LEN};
use kms_c_api::pointer::{check_ptr_is_non_null_and_aligned, PointerError};

const ADDR_A: &str = "0xd8dA6BF26964aF9D7eEd9e03E53415D37aA96045";
const ADDR_B: &str = "0x5aAeb6053F3E94C9b9A09f33669435E7Ef1BeAed";
const ADDR_C: &str = "0xfB6916095ca1df60bB79Ce92cE3Ea74c37c5d359";

fn is_empty_shell(b: &DynamicBuffer) -> bool {
    b.pointer.is_none() && b.length == 0 && b.destructor.is_none()
}

#[test]
fn buffer_from_then_destroy_leaves_empty_shell() {
    let mut empty = DynamicBuffer::from(Vec::new());
    assert!(is_empty_shell(&empty));
    assert_eq!(empty.destroy(), Ok(()));
    assert!(is_empty_shell(&empty));
    for bytes in [vec![0u8], vec![1u8, 2, 3, 4, 5]] {
        let mut b = DynamicBuffer::from(bytes.clone());
        assert_eq!(b.length, bytes.len());
        assert_eq!(b.pointer.as_ref(), Some(&bytes));
        assert_eq!(b.destructor, Some(Destructor::FreeBoxedSlice));
        assert_eq!(b.destroy(), Ok(()));
        assert!(is_empty_shell(&b));
    }
}

#[test]
fn destroying_empty_shell_repeatedly_succeeds() {
    let mut b = DynamicBuffer::from(vec![9u8; 16]);
    for _ in 0..3 {
        assert_eq!(b.destroy(), Ok(()));
        assert!(is_empty_shell(&b));
    }
    assert_eq!(destroy_dynamic_buffer(&mut b), 0);
}

#[test]
fn null_pointer_buffer_is_canonicalised() {
    let mut b = DynamicBuffer { pointer: None, length: 7, destructor: Some(Destructor::FreeBoxedSlice) };
    assert_eq!(b.destroy(), Ok(()));
    assert!(is_empty_shell(&b));
}

#[test]
fn destructor_failure_leaves_buffer_unchanged() {
    let mut b = DynamicBuffer { pointer: Some(vec![1u8, 2, 3]), length: 5, destructor: Some(Destructor::FreeBoxedSlice) };
    assert_eq!(b.destroy(), Err(DestroyError::DestructorFailed));
    assert_eq!(b.pointer, Some(vec![1u8, 2, 3]));
    assert_eq!(b.length, 5);
    assert_eq!(destroy_dynamic_buffer(&mut b), 1);
}

#[test]
fn missing_destructor_is_an_error() {
    let mut b = DynamicBuffer { pointer: Some(vec![1u8]), length: 1, destructor: None };
    assert_eq!(b.destroy(), Err(DestroyError::MissingDestructor));
    assert_eq!(b.pointer, Some(vec![1u8]));
}

#[test]
fn free_from_vec_checks_length() {
    let mut p = Some(vec![1u8, 2]);
    assert_eq!(free_u8_ptr_built_from_vec_u8(&mut p, 3), 1);
    assert_eq!(p, Some(vec![1u8, 2]));
    assert_eq!(free_u8_ptr_built_from_vec_u8(&mut p, 2), 0);
    assert_eq!(p, None);
    assert_eq!(free_u8_ptr_built_from_vec_u8(&mut p, 0), 0);
}

#[test]
fn view_borrows_bytes() {
    let data = [4u8, 5, 6];
    let v = DynamicBufferView::from(&data[..]);
    assert_eq!(v.length, 3);
    assert_eq!(v.as_slice(), &data[..]);
}

#[test]
fn pointer_validator() {
    assert_eq!(check_ptr_is_non_null_and_aligned(0, 8), Err(PointerError::NullOrMisaligned));
    assert_eq!(check_ptr_is_non_null_and_aligned(12, 8), Err(PointerError::NullOrMisaligned));
    assert_eq!(check_ptr_is_non_null_and_aligned(16, 8), Ok(()));
    assert_eq!(check_ptr_is_non_null_and_aligned(1, 1), Ok(()));
}

#[test]
fn payload_text_becomes_message() {
    match panic_payload_to_error(Some("boom")) {
        LastError::Message(m) => assert_eq!(m, b"boom".to_vec()),
        other => panic!("unexpected {:?}", other),
    }
}

#[test]
fn payload_without_text_gives_fallback() {
    match panic_payload_to_error(None) {
        LastError::Message(m) => assert_eq!(m, b"panic occurred".to_vec()),
        other => panic!("unexpected {:?}", other),
    }
}

#[test]
fn payload_with_nul_cannot_be_captured() {
    assert!(matches!(panic_payload_to_error(Some("a\0b")), LastError::CaptureFailed));
}

#[test]
fn replace_overwrites_slot() {
    let mut slot = LastError::Message(b"old".to_vec());
    replace_last_error_with_panic_payload(&mut slot, Some("new"));
    assert!(matches!(slot, LastError::Message(ref m) if m == b"new"));
}

#[test]
fn finish_call_statuses() {
    let mut slot = LastError::Empty;
    assert_eq!(finish_call(Ok(0), &mut slot), 0);
    assert!(matches!(slot, LastError::Empty));
    assert_eq!(finish_call(Err(Some("fault")), &mut slot), 1);
    assert!(matches!(slot, LastError::Message(ref m) if m == b"fault"));
}

#[test]
fn handle_table_lifecycle() {
    let mut t: HandleTable<u32> = HandleTable::new();
    assert_eq!(t.destroy(NULL_HANDLE), 0);
    let h = t.insert(7);
    assert_eq!(h, 1);
    assert_eq!(t.get(h), Some(&7));
    assert_eq!(t.destroy(h), 0);
    assert_eq!(t.get(h), None);
    assert_eq!(t.destroy(h), 1);
    assert_eq!(t.destroy(42), 1);
    assert_eq!(t.destroy(NULL_HANDLE), 0);
    assert_eq!(t.issued(), 1);
}

#[test]
fn keygen_serialize_round_trips() {
    let mut sks = HandleTable::new();
    let mut pks = HandleTable::new();
    let sk = TKMS_ml_kem_pke_keygen(&mut sks).unwrap();
    let pk = TKMS_ml_kem_pke_get_pk(&sks, sk, &mut pks).unwrap();

    let sk_buf = TKMS_ml_kem_pke_sk_to_u8vec(&sks, sk).unwrap();
    assert_eq!(sk_buf.length, PRIVATE_KEY_LEN);
    let sk_bytes = sk_buf.pointer.clone().unwrap();
    let sk2 = TKMS_u8vec_to_ml_kem_pke_sk(&DynamicBufferView::from(&sk_bytes[..]), &mut sks).unwrap();
    let pk2 = TKMS_ml_kem_pke_get_pk(&sks, sk2, &mut pks).unwrap();
    let a = TKMS_ml_kem_pke_pk_to_u8vec(&pks, pk).unwrap();
    let b = TKMS_ml_kem_pke_pk_to_u8vec(&pks, pk2).unwrap();
    assert_eq!(a.pointer, b.pointer);
}

#[test]
fn public_key_serialization_is_stable() {
    let mut sks = HandleTable::new();
    let mut pks = HandleTable::new();
    let sk = TKMS_ml_kem_pke_keygen(&mut sks).unwrap();
    let pk = TKMS_ml_kem_pke_get_pk(&sks, sk, &mut pks).unwrap();
    let mut first = TKMS_ml_kem_pke_pk_to_u8vec(&pks, pk).unwrap();
    let bytes = first.pointer.clone().unwrap();
    assert_eq!(bytes.len(), PUBLIC_KEY_LEN);
    let pk2 = TKMS_u8vec_to_ml_kem_pke_pk(&DynamicBufferView::from(&bytes[..]), &mut pks).unwrap();
    let second = TKMS_ml_kem_pke_pk_to_u8vec(&pks, pk2).unwrap();
    assert_eq!(second.pointer, Some(bytes));
    assert_eq!(first.destroy(), Ok(()));
}

#[test]
fn public_key_is_embedded_in_private_key() {
    let sk = PrivateEncKeyMlKem512::from_seed(&[1u8; 32], &[2u8; 32]);
    let sk_bytes = sk.to_bytes();
    let pk_bytes = sk.encapsulation_key().to_bytes();
    assert_eq!(pk_bytes.len(), PUBLIC_KEY_LEN);
    assert_eq!(&sk_bytes[768..1568], &pk_bytes[..]);
    assert_ne!(pk_bytes, vec![0u8; PUBLIC_KEY_LEN]);
}

#[test]
fn keygen_from_seed_is_deterministic() {
    let a = PrivateEncKeyMlKem512::from_seed(&[3u8; 32], &[4u8; 32]).to_bytes();
    let b = PrivateEncKeyMlKem512::from_seed(&[3u8; 32], &[4u8; 32]).to_bytes();
    let c = PrivateEncKeyMlKem512::from_seed(&[5u8; 32], &[4u8; 32]).to_bytes();
    assert_eq!(a, b);
    assert_ne!(a, c);
}

#[test]
fn deserialize_rejects_wrong_length() {
    assert_eq!(PrivateEncKeyMlKem512::from_bytes(&[0u8; 10]).err(), Some(KeyError::WrongLength));
    assert_eq!(PublicEncKeyMlKem512::from_bytes(&[0u8; PUBLIC_KEY_LEN + 1]).err(), Some(KeyError::WrongLength));
    let mut sks = HandleTable::new();
    let mut pks = HandleTable::new();
    let bytes = vec![0u8; 3];
    assert_eq!(TKMS_u8vec_to_ml_kem_pke_sk(&DynamicBufferView::from(&bytes[..]), &mut sks), Err(ApiError::WrongKeyLength));
    assert_eq!(TKMS_u8vec_to_ml_kem_pke_pk(&DynamicBufferView::from(&bytes[..]), &mut pks), Err(ApiError::WrongKeyLength));
    assert_eq!(sks.issued(), 0);
    assert_eq!(pks.issued(), 0);
}

#[test]
fn invalid_key_handles_are_refused() {
    let sks: HandleTable<PrivateEncKeyMlKem512> = HandleTable::new();
    let mut pks = HandleTable::new();
    assert_eq!(TKMS_ml_kem_pke_get_pk(&sks, NULL_HANDLE, &mut pks), Err(ApiError::InvalidHandle));
    assert_eq!(TKMS_ml_kem_pke_sk_to_u8vec(&sks, 3).err(), Some(ApiError::InvalidHandle));
    assert_eq!(TKMS_ml_kem_pke_pk_to_u8vec(&pks, 1).err(), Some(ApiError::InvalidHandle));
}

#[test]
fn server_id_addr_parses_checksummed_address() {
    let rec = ServerIdAddr::new(1, ADDR_A).unwrap();
    assert_eq!(rec.id, 1);
    assert_eq!(rec.addr.bytes[0], 0xd8);
    assert_eq!(rec.addr.bytes[19], 0x45);
    assert_eq!(ServerIdAddr::new(1, "0xd8da6bf26964af9d7eed9e03e53415d37aa96045x").err(), Some(ClientError::InvalidAddress));
    assert_eq!(ServerIdAddr::new(1, "0xD8dA6BF26964aF9D7eEd9e03E53415D37aA96045").err(), Some(ClientError::InvalidAddress));
    assert_eq!(ServerIdAddr::new(1, "d8dA6BF26964aF9D7eEd9e03E53415D37aA96045").err(), Some(ClientError::InvalidAddress));
    let mut t = HandleTable::new();
    assert_eq!(TKMS_new_server_id_addr(2, "nonsense", &mut t), Err(ApiError::InvalidAddress));
    assert_eq!(TKMS_new_server_id_addr(2, ADDR_B, &mut t), Ok(1));
}

#[test]
fn fhe_parameter_names() {
    assert_eq!(FheParameter::from_str_name("Default"), Some(FheParameter::Default));
    assert_eq!(FheParameter::from_str_name("Test"), Some(FheParameter::Test));
    assert_eq!(FheParameter::from_str_name("test"), None);
    assert_eq!(FheParameter::from_str_name(""), None);
}

fn records(ids: &[u32]) -> Vec<ServerIdAddr> {
    let addrs = [ADDR_A, ADDR_B, ADDR_C];
    ids.iter().enumerate().map(|(i, id)| ServerIdAddr::new(*id, addrs[i % 3]).unwrap()).collect()
}

#[test]
fn client_with_unique_ids() {
    let c = Client::new(&records(&[1, 2, 3]), ADDR_A, "Test").unwrap();
    assert_eq!(c.server_identities.len(), 3);
    assert!(!c.server_identities.is_empty());
    assert_eq!(c.params, FheParameter::Test);
    assert!(c.client_sk.is_none());
    match &c.server_identities {
        ServerIdentities::Addrs(m) => assert_eq!(m[&2].bytes, records(&[0, 2])[1].addr.bytes),
        ServerIdentities::Pks(_) => panic!("expected addresses"),
    }
}

#[test]
fn client_with_no_servers() {
    let c = Client::new(&Vec::new(), ADDR_C, "unknown-set").unwrap();
    assert!(c.server_identities.is_empty());
    assert_eq!(c.params, FheParameter::Default);
}

#[test]
fn client_with_duplicate_ids_fails() {
    assert_eq!(Client::new(&records(&[1, 2, 1]), ADDR_A, "Default").err(), Some(ClientError::DuplicateServerId));
    assert_eq!(Client::new(&records(&[1, 2]), "0xabc", "Default").err(), Some(ClientError::InvalidAddress));
}

#[test]
fn new_client_through_handles() {
    let mut recs = HandleTable::new();
    let mut clients = HandleTable::new();
    let a = TKMS_new_server_id_addr(1, ADDR_A, &mut recs).unwrap();
    let b = TKMS_new_server_id_addr(2, ADDR_B, &mut recs).unwrap();
    let dup = TKMS_new_server_id_addr(1, ADDR_C, &mut recs).unwrap();
    assert_eq!(TKMS_new_client(&recs, &vec![a, b, dup], ADDR_A, "Default", &mut clients), Err(ApiError::DuplicateServerId));
    assert_eq!(TKMS_new_client(&recs, &vec![a, 99], ADDR_A, "Default", &mut clients), Err(ApiError::InvalidHandle));
    assert_eq!(clients.issued(), 0);
    let h = TKMS_new_client(&recs, &vec![a, b], ADDR_A, "Default", &mut clients).unwrap();
    assert_eq!(clients.get(h).unwrap().server_identities.len(), 2);
    assert_eq!(clients.destroy(h), 0);
    assert_eq!(clients.destroy(NULL_HANDLE), 0);
    assert_eq!(recs.destroy(NULL_HANDLE), 0);
}

#[test]
fn error_messages() {
    assert_eq!(ApiError::DuplicateServerId.message(), "some server IDs have duplicate keys");
    assert_eq!(ApiError::InvalidHandle.message(), "invalid handle");
    assert_eq!(ApiError::WrongKeyLength.message(), "bytes do not encode a key");
    assert_eq!(ApiError::InvalidAddress.message(), "address is not checksummed");
    assert_eq!(ApiError::HandlesExhausted.message(), "no handle left");
}

#[test]
fn release_steps() {
    assert_eq!(release_action(true, true), ReleaseAction::Clear);
    assert_eq!(release_action(true, false), ReleaseAction::Clear);
    assert_eq!(release_action(false, true), ReleaseAction::CallDestructor);
    assert_eq!(release_action(false, false), ReleaseAction::Refuse);
    assert_eq!(finish_release(ReleaseAction::Clear, 5), (true, 0));
    assert_eq!(finish_release(ReleaseAction::Refuse, 0), (false, 1));
    assert_eq!(finish_release(ReleaseAction::CallDestructor, 0), (true, 0));
    assert_eq!(finish_release(ReleaseAction::CallDestructor, -3), (false, 1));
}

#[test]
fn client_decrypts_in_default_mode() {
    let c = Client::new(&records(&[4]), ADDR_B, "Default").unwrap();
    assert_eq!(c.decryption_mode, DecryptionMode::NoiseFloodSmall);
    assert_eq!(DecryptionMode::default(), DecryptionMode::NoiseFloodSmall);
}

#[test]
fn address_bytes_are_the_hex_digits() {
    let rec = ServerIdAddr::new(9, ADDR_B).unwrap();
    let expected: [u8; 20] = [
        0x5a, 0xae, 0xb6, 0x05, 0x3f, 0x3e, 0x94, 0xc9, 0xb9, 0xa0, 0x9f, 0x33, 0x66, 0x94, 0x35, 0xe7, 0xef, 0x1b,
        0xea, 0xed,
    ];
    assert_eq!(rec.addr.bytes, expected);
    assert_eq!(ServerIdAddr::new(9, "xyz").err(), Some(ClientError::InvalidAddress));
    assert_eq!(ServerIdAddr::new(9, "").err(), Some(ClientError::InvalidAddress));
}
