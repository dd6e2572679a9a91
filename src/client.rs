//! Server identities and the client context built from them.
use vstd::prelude::*;
use vstd::string::StrSliceExecFns;
use std::collections::HashMap;

verus! {

broadcast use vstd::std_specs::hash::group_hash_axioms;

/// A 20-byte account address.
#[derive(Debug, Clone, Copy)]
pub struct EthAddress {
    pub bytes: [u8; 20],
}

/// The address that a checksummed (EIP-55) address string denotes, or `None`
/// when the string is not one.
pub uninterp spec fn checksummed_address(s: Seq<char>) -> Option<Seq<u8>>;

/// The value of a hexadecimal digit of either case, or -1 for any other character.
pub open spec fn hex_value(c: char) -> int {
    if '0' <= c && c <= '9' {
        c as int - '0' as int
    } else if 'a' <= c && c <= 'f' {
        c as int - 'a' as int + 10
    } else if 'A' <= c && c <= 'F' {
        c as int - 'A' as int + 10
    } else {
        -1
    }
}

/// `s` is "0x" followed by 40 hexadecimal digits.
pub open spec fn address_form(s: Seq<char>) -> bool {
    &&& s.len() == 42
    &&& s[0] == '0'
    &&& s[1] == 'x'
    &&& forall|i: int| 2 <= i < 42 ==> hex_value(#[trigger] s[i]) >= 0
}

/// The 20 bytes that the 40 digits after "0x" spell, two digits a byte.
pub open spec fn address_digits_bytes(s: Seq<char>) -> Seq<u8> {
    Seq::new(20, |i: int| (hex_value(s[2 + 2 * i]) * 16 + hex_value(s[3 + 2 * i])) as u8)
}

/// Relies on alloy_primitives::Address::parse_checksummed with no chain id:
/// it refuses a string without the "0x" prefix, decodes the rest as exactly 20
/// bytes of hexadecimal (const_hex::decode_to_array), and accepts the result
/// only when the string's letter case matches its EIP-55 checksum.
#[verifier::external_body]
fn parse_checksummed(s: &str) -> (r: Option<EthAddress>)
    ensures
        r is Some <==> checksummed_address(s@) is Some,
        r matches Some(a) ==> checksummed_address(s@) == Some(a.bytes@),
        !address_form(s@) ==> r is None,
        r matches Some(a) ==> a.bytes@ == address_digits_bytes(s@),
{
    match alloy_primitives::Address::parse_checksummed(s, None) {
        Ok(a) => Some(EthAddress { bytes: a.into_array() }),
        Err(_) => None,
    }
}

/// Why a server-identity record or a client context could not be built.
#[derive(Debug, Clone, Copy, PartialEq, Eq, Structural)]
pub enum ClientError {
    /// An address string is not a correctly checksummed address.
    InvalidAddress,
    /// Two server-identity records share one server id.
    DuplicateServerId,
}

/// An encoded public signature-verification key of a server.
#[derive(Debug)]
pub struct PublicSigKey {
    pub bytes: Vec<u8>,
}

/// An encoded private signing key of the client.
#[derive(Debug)]
pub struct PrivateSigKey {
    pub bytes: Vec<u8>,
}

/// A server id together with the server's address.
#[derive(Debug, Clone, Copy)]
pub struct ServerIdAddr {
    pub id: u32,
    pub addr: EthAddress,
}

impl ServerIdAddr {
    /// The record for server `id` at the address that `addr` spells with its
    /// checksum.
    pub fn new(id: u32, addr: &str) -> (r: Result<ServerIdAddr, ClientError>)
        ensures
            r is Ok <==> checksummed_address(addr@) is Some,
            r matches Ok(rec) ==> rec.id == id && checksummed_address(addr@) == Some(rec.addr.bytes@),
            r matches Ok(rec) ==> rec.addr.bytes@ == address_digits_bytes(addr@),
            !address_form(addr@) ==> r is Err,
            r is Err ==> r == Err::<ServerIdAddr, ClientError>(ClientError::InvalidAddress),
    {
        match parse_checksummed(addr) {
            Some(a) => Ok(ServerIdAddr { id, addr: a }),
            None => Err(ClientError::InvalidAddress),
        }
    }
}

/// The servers a client talks to, by server id: each with its address or
/// with its public verification key.
pub enum ServerIdentities {
    Pks(HashMap<u32, PublicSigKey>),
    Addrs(HashMap<u32, EthAddress>),
}

impl ServerIdentities {
    /// The server ids present.
    pub open spec fn ids(&self) -> Set<u32> {
        match self {
            ServerIdentities::Pks(m) => m@.dom(),
            ServerIdentities::Addrs(m) => m@.dom(),
        }
    }

    /// How many servers there are.
    pub fn len(&self) -> (r: usize)
        ensures
            r == self.ids().len(),
    {
        match self {
            ServerIdentities::Pks(m) => m.len(),
            ServerIdentities::Addrs(m) => m.len(),
        }
    }

    /// Whether there are no servers.
    pub fn is_empty(&self) -> (r: bool)
        ensures
            r == (self.ids().len() == 0),
    {
        self.len() == 0
    }
}

/// No two records share a server id.
pub open spec fn ids_unique(records: Seq<ServerIdAddr>) -> bool {
    forall|i: int, j: int| 0 <= i < j < records.len() ==> records[i].id != records[j].id
}

/// `m` maps the id of each record to its address, and holds nothing else.
pub open spec fn maps_records(m: Map<u32, EthAddress>, records: Seq<ServerIdAddr>) -> bool {
    &&& forall|k: u32| m.contains_key(k) <==> exists|j: int| 0 <= j < records.len() && records[j].id == k
    &&& forall|j: int| 0 <= j < records.len() ==> m.contains_key(records[j].id) && m[records[j].id] == records[j].addr
}

/// The address map of the records; fails when two records share an id
/// rather than letting one of them replace the other.
pub fn server_identities_from_addrs(records: &Vec<ServerIdAddr>) -> (r: Result<ServerIdentities, ClientError>)
    ensures
        r is Ok <==> ids_unique(records@),
        r is Err ==> r == Err::<ServerIdentities, ClientError>(ClientError::DuplicateServerId),
        r matches Ok(s) ==> s is Addrs && s.ids().len() == records@.len(),
        r matches Ok(ServerIdentities::Addrs(m)) ==> maps_records(m@, records@),
{
    let mut m: HashMap<u32, EthAddress> = HashMap::new();
    let mut i: usize = 0;
    while i < records.len()
        invariant
            i <= records@.len(),
            maps_records(m@, records@.subrange(0, i as int)),
            ids_unique(records@.subrange(0, i as int)),
            m@.len() == i,
        decreases records@.len() - i,
    {
        let rec = records[i];
        if m.contains_key(&rec.id) {
            proof {
                let pre = records@.subrange(0, i as int);
                let j = choose|j: int| 0 <= j < pre.len() && pre[j].id == rec.id;
                assert(records@[j].id == records@[i as int].id);
            }
            return Err(ClientError::DuplicateServerId);
        }
        m.insert(rec.id, rec.addr);
        proof {
            let pre = records@.subrange(0, i as int);
            let post = records@.subrange(0, i + 1);
            assert(post =~= pre.push(rec));
            assert forall|k: u32| m@.contains_key(k) <==> exists|j: int| 0 <= j < post.len() && post[j].id == k by {
                if k == rec.id {
                    assert(post[pre.len() as int].id == k);
                }
                if m@.contains_key(k) && k != rec.id {
                    let j = choose|j: int| 0 <= j < pre.len() && pre[j].id == k;
                    assert(post[j] == pre[j]);
                }
                if exists|j: int| 0 <= j < post.len() && post[j].id == k {
                    let j = choose|j: int| 0 <= j < post.len() && post[j].id == k;
                    if j < pre.len() {
                        assert(post[j] == pre[j]);
                    }
                }
            }
            assert forall|j: int| 0 <= j < post.len() implies m@.contains_key(post[j].id) && m@[post[j].id] == post[j].addr by {
                if j < pre.len() {
                    assert(post[j] == pre[j]);
                    assert(pre[j].id != rec.id);
                }
            }
        }
        i = i + 1;
    }
    assert(records@.subrange(0, records@.len() as int) =~= records@);
    Ok(ServerIdentities::Addrs(m))
}

/// The parameter sets a client can be configured with.
#[derive(Debug, Clone, Copy, PartialEq, Eq, Structural)]
pub enum FheParameter {
    Default,
    Test,
}

/// The parameter set whose name is `name`, if any.
pub open spec fn parameter_named(name: Seq<char>) -> Option<FheParameter> {
    if name == "Default"@ {
        Some(FheParameter::Default)
    } else if name == "Test"@ {
        Some(FheParameter::Test)
    } else {
        None
    }
}

/// The parameter set a client uses when configured with `name`: the named
/// set, and the default set for an unknown name.
pub open spec fn parameter_choice(name: Seq<char>) -> FheParameter {
    match parameter_named(name) {
        Some(p) => p,
        None => FheParameter::Default,
    }
}

fn str_eq(a: &str, b: &str) -> (r: bool)
    ensures
        r == (a@ == b@),
{
    let n = a.unicode_len();
    if n != b.unicode_len() {
        return false;
    }
    let mut i: usize = 0;
    while i < n
        invariant
            n == a@.len(),
            n == b@.len(),
            i <= n,
            forall|j: int| 0 <= j < i ==> a@[j] == b@[j],
        decreases n - i,
    {
        if a.get_char(i) != b.get_char(i) {
            return false;
        }
        i = i + 1;
    }
    assert(a@ =~= b@);
    true
}

impl FheParameter {
    /// The parameter set named `value`, if any.
    pub fn from_str_name(value: &str) -> (r: Option<FheParameter>)
        ensures
            r == parameter_named(value@),
    {
        if str_eq(value, "Default") {
            Some(FheParameter::Default)
        } else if str_eq(value, "Test") {
            Some(FheParameter::Test)
        } else {
            None
        }
    }
}

/// How the client asks the servers to decrypt: by noise flooding or by bit
/// decomposition, each over small or large ciphertexts.
#[derive(Debug, Clone, Copy, PartialEq, Eq, Structural)]
pub enum DecryptionMode {
    NoiseFloodSmall,
    NoiseFloodLarge,
    BitDecSmall,
    BitDecLarge,
}

impl Default for DecryptionMode {
    /// Noise flooding over small ciphertexts.
    fn default() -> (r: Self)
        ensures
            r == DecryptionMode::NoiseFloodSmall,
    {
        DecryptionMode::NoiseFloodSmall
    }
}

/// What a client needs to talk to the servers: who they are, who it is, and
/// which parameter set is in use.
pub struct Client {
    pub server_identities: ServerIdentities,
    pub client_address: EthAddress,
    pub client_sk: Option<PrivateSigKey>,
    pub params: FheParameter,
    pub decryption_mode: DecryptionMode,
}

impl Client {
    /// The client at the checksummed address `client_address_hex`, talking to
    /// the servers of `records`, with the parameter set named `fhe_parameter`
    /// (the default set for an unknown name), decrypting in the default mode.
    pub fn new(records: &Vec<ServerIdAddr>, client_address_hex: &str, fhe_parameter: &str) -> (r: Result<Client, ClientError>)
        ensures
            checksummed_address(client_address_hex@) is None
                ==> r == Err::<Client, ClientError>(ClientError::InvalidAddress),
            checksummed_address(client_address_hex@) is Some && !ids_unique(records@)
                ==> r == Err::<Client, ClientError>(ClientError::DuplicateServerId),
            r is Ok <==> checksummed_address(client_address_hex@) is Some && ids_unique(records@),
            !address_form(client_address_hex@) ==> r == Err::<Client, ClientError>(ClientError::InvalidAddress),
            r matches Ok(c) ==> {
                &&& checksummed_address(client_address_hex@) == Some(c.client_address.bytes@)
                &&& c.client_address.bytes@ == address_digits_bytes(client_address_hex@)
                &&& c.client_sk is None
                &&& c.params == parameter_choice(fhe_parameter@)
                &&& c.decryption_mode == DecryptionMode::NoiseFloodSmall
                &&& c.server_identities.ids().len() == records@.len()
                &&& c.server_identities matches ServerIdentities::Addrs(m) && maps_records(m@, records@)
            },
    {
        let params = match FheParameter::from_str_name(fhe_parameter) {
            Some(p) => p,
            None => FheParameter::Default,
        };
        let client_address = match parse_checksummed(client_address_hex) {
            Some(a) => a,
            None => return Err(ClientError::InvalidAddress),
        };
        let server_identities = match server_identities_from_addrs(records) {
            Ok(s) => s,
            Err(e) => return Err(e),
        };
        Ok(Client {
            server_identities,
            client_address,
            client_sk: None,
            params,
            decryption_mode: DecryptionMode::default(),
        })
    }
}

} // verus!
